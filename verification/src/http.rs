//! HTTP-facing logic: form-body parsing for the calibration and WiFi
//! endpoints, response selection, the scan-list report, and the body-read
//! growth rule. The transport itself lives outside the library; handlers
//! hand bodies in as bytes and send the returned response back.

use vstd::prelude::*;

use crate::metric::{spec_decimal, spec_json_string};
use crate::wifi::{AccessPoint, Credentials};

verus! {

/// The plain HTTP port.
pub const HTTP_PORT: u16 = 80;

/// The TLS HTTP port.
pub const HTTPS_PORT: u16 = 443;

/// A response ready to send: status code, content type, body.
#[derive(Debug)]
pub struct HttpResponse {
    /// The status code.
    pub code: u16,
    /// The `content-type` header value.
    pub content_type: &'static str,
    /// The response body.
    pub body: String,
}

/// The value of a hex digit, upper or lower case.
pub open spec fn spec_hex_val(b: u8) -> Option<u8> {
    if 48 <= b <= 57 {
        Some((b - 48) as u8)
    } else if 97 <= b <= 102 {
        Some((b - 87) as u8)
    } else if 65 <= b <= 70 {
        Some((b - 55) as u8)
    } else {
        None
    }
}

/// Decode one form-encoded component: `+` reads as a space, `%` must head
/// two hex digits giving a byte, anything else reads as itself. Bytes read
/// as characters one for one.
pub open spec fn spec_decode_component(s: Seq<u8>) -> Option<Seq<char>>
    decreases s.len(),
{
    if s.len() == 0 {
        Some(Seq::empty())
    } else if s[0] == 37 {
        if s.len() >= 3 && spec_hex_val(s[1]) is Some && spec_hex_val(s[2]) is Some {
            match spec_decode_component(s.skip(3)) {
                Some(t) => Some(
                    seq![
                        (
                        (spec_hex_val(s[1]).unwrap() * 16 + spec_hex_val(s[2]).unwrap()) as u8
                        ) as char
                    ] + t,
                ),
                None => None,
            }
        } else {
            None
        }
    } else if s[0] == 43 {
        match spec_decode_component(s.skip(1)) {
            Some(t) => Some(seq![' '] + t),
            None => None,
        }
    } else {
        match spec_decode_component(s.skip(1)) {
            Some(t) => Some(seq![s[0] as char] + t),
            None => None,
        }
    }
}

/// The first position of `b` in `s`.
pub open spec fn spec_find(s: Seq<u8>, b: u8) -> Option<int>
    decreases s.len(),
{
    if s.len() == 0 {
        None
    } else if s[0] == b {
        Some(0)
    } else {
        match spec_find(s.drop_first(), b) {
            Some(i) => Some(i + 1),
            None => None,
        }
    }
}

/// What `spec_find` returns: the first position holding `b`, if any.
pub proof fn lemma_find_props(s: Seq<u8>, b: u8)
    ensures
        match spec_find(s, b) {
            Some(i) => 0 <= i < s.len() && s[i] == b && forall|j: int| 0 <= j < i ==> s[j] != b,
            None => forall|j: int| 0 <= j < s.len() ==> s[j] != b,
        },
    decreases s.len(),
{
    if s.len() > 0 && s[0] != b {
        lemma_find_props(s.drop_first(), b);
        assert forall|j: int| 1 <= j < s.len() implies s[j] == s.drop_first()[j - 1] by {}
    }
}

/// One `key=value` part: the key before the first `=`, the value after it,
/// both decoded. A part without `=` is malformed.
pub open spec fn spec_pair(part: Seq<u8>) -> Option<(Seq<char>, Seq<char>)> {
    match spec_find(part, 61) {
        None => None,
        Some(i) => match (
            spec_decode_component(part.take(i)),
            spec_decode_component(part.skip(i + 1)),
        ) {
            (Some(k), Some(v)) => Some((k, v)),
            _ => None,
        },
    }
}

/// A whole form body: `key=value` parts separated by `&`.
pub open spec fn spec_form(s: Seq<u8>) -> Option<Seq<(Seq<char>, Seq<char>)>>
    decreases s.len(),
    via spec_form_decreases
{
    match spec_find(s, 38) {
        None => match spec_pair(s) {
            Some(p) => Some(seq![p]),
            None => None,
        },
        Some(i) => match (spec_pair(s.take(i)), spec_form(s.skip(i + 1))) {
            (Some(p), Some(rest)) => Some(seq![p] + rest),
            _ => None,
        },
    }
}

#[via_fn]
proof fn spec_form_decreases(s: Seq<u8>) {
    lemma_find_props(s, 38);
}

/// Append one character to a string.
///
/// Relies on `String::push`: appends the given character to the end.
#[verifier::external_body]
fn push_char(s: &mut String, c: char)
    ensures
        final(s)@ == old(s)@.push(c),
{
    s.push(c);
}

/// The value of a hex digit, upper or lower case.
fn hex_val(b: u8) -> (r: Option<u8>)
    ensures
        r == spec_hex_val(b),
{
    if 48 <= b && b <= 57 {
        Some(b - 48)
    } else if 97 <= b && b <= 102 {
        Some(b - 87)
    } else if 65 <= b && b <= 70 {
        Some(b - 55)
    } else {
        None
    }
}

/// Decode one form-encoded component.
fn decode_component(s: &[u8]) -> (r: Option<String>)
    ensures
        match r {
            Some(out) => spec_decode_component(s@) == Some(out@),
            None => spec_decode_component(s@) is None,
        },
    decreases s@.len(),
{
    if s.len() == 0 {
        Some(String::new())
    } else if s[0] == 37 {
        if s.len() >= 3 {
            let h1 = hex_val(s[1]);
            let h2 = hex_val(s[2]);
            match (h1, h2) {
                (Some(a), Some(b)) => {
                    let byte = a * 16 + b;
                    match decode_component(vstd::slice::slice_subrange(s, 3, s.len())) {
                        Some(t) => {
                            let mut out = String::new();
                            push_char(&mut out, byte as char);
                            out.append(t.as_str());
                            proof {
                                assert(out@ =~= seq![(byte as char)] + t@);
                            }
                            Some(out)
                        },
                        None => None,
                    }
                },
                _ => None,
            }
        } else {
            None
        }
    } else if s[0] == 43 {
        match decode_component(vstd::slice::slice_subrange(s, 1, s.len())) {
            Some(t) => {
                let mut out = String::new();
                push_char(&mut out, ' ');
                out.append(t.as_str());
                proof {
                    assert(out@ =~= seq![' '] + t@);
                }
                Some(out)
            },
            None => None,
        }
    } else {
        let c = s[0];
        match decode_component(vstd::slice::slice_subrange(s, 1, s.len())) {
            Some(t) => {
                let mut out = String::new();
                push_char(&mut out, c as char);
                out.append(t.as_str());
                proof {
                    assert(out@ =~= seq![(c as char)] + t@);
                }
                Some(out)
            },
            None => None,
        }
    }
}

/// The first position of `b` in `s`.
fn find_byte(s: &[u8], b: u8) -> (r: Option<usize>)
    ensures
        match r {
            Some(i) => spec_find(s@, b) == Some(i as int),
            None => spec_find(s@, b) is None,
        },
{
    let n = s.len();
    let mut i: usize = 0;
    while i < n
        invariant
            n == s@.len(),
            i <= n,
            forall|j: int| 0 <= j < i ==> s@[j] != b,
        decreases n - i,
    {
        if s[i] == b {
            proof {
                lemma_find_props(s@, b);
            }
            return Some(i);
        }
        i += 1;
    }
    proof {
        lemma_find_props(s@, b);
    }
    None
}

/// Parse one `key=value` part.
fn parse_pair(part: &[u8]) -> (r: Option<(String, String)>)
    ensures
        match r {
            Some(kv) => spec_pair(part@) == Some((kv.0@, kv.1@)),
            None => spec_pair(part@) is None,
        },
{
    match find_byte(part, 61) {
        None => None,
        Some(i) => {
            proof {
                lemma_find_props(part@, 61);
            }
            let end = part.len();
            let key = decode_component(vstd::slice::slice_subrange(part, 0, i));
            let value = decode_component(vstd::slice::slice_subrange(part, i + 1, end));
            proof {
                assert(part@.subrange(0, i as int) =~= part@.take(i as int));
                assert(part@.subrange(i + 1, part@.len() as int) =~= part@.skip(i + 1));
            }
            match (key, value) {
                (Some(k), Some(v)) => Some((k, v)),
                _ => None,
            }
        },
    }
}

/// Parse a whole form body into its `key=value` pairs, in order.
pub fn parse_form(body: &[u8]) -> (r: Option<Vec<(String, String)>>)
    ensures
        match r {
            Some(pairs) => {
                &&& spec_form(body@) matches Some(ps)
                &&& ps.len() == pairs@.len()
                &&& forall|i: int|
                    0 <= i < ps.len() ==> ps[i] == (pairs@[i].0@, pairs@[i].1@)
            },
            None => spec_form(body@) is None,
        },
    decreases body@.len(),
{
    match find_byte(body, 38) {
        None => match parse_pair(body) {
            Some(kv) => {
                let mut pairs: Vec<(String, String)> = Vec::new();
                pairs.push(kv);
                Some(pairs)
            },
            None => None,
        },
        Some(i) => {
            proof {
                lemma_find_props(body@, 38);
            }
            let head = parse_pair(vstd::slice::slice_subrange(body, 0, i));
            proof {
                assert(body@.subrange(0, i as int) =~= body@.take(i as int));
                assert(body@.subrange(i + 1, body@.len() as int) =~= body@.skip(i + 1));
            }
            let end = body.len();
            match head {
                Some(kv) => {
                    match parse_form(vstd::slice::slice_subrange(body, i + 1, end)) {
                        Some(mut rest) => {
                            rest.insert(0, kv);
                            Some(rest)
                        },
                        None => None,
                    }
                },
                None => None,
            }
        },
    }
}

/// The numeric value of a digit character.
pub open spec fn spec_digit_val(c: char) -> Option<int> {
    if 48 <= c as int <= 57 {
        Some(c as int - 48)
    } else {
        None
    }
}

/// The value of a non-empty string of decimal digits.
pub open spec fn spec_number_val(s: Seq<char>) -> Option<int>
    decreases s.len(),
{
    if s.len() == 0 {
        None
    } else if s.len() == 1 {
        spec_digit_val(s[0])
    } else {
        match (spec_number_val(s.drop_last()), spec_digit_val(s.last())) {
            (Some(h), Some(d)) => Some(h * 10 + d),
            _ => None,
        }
    }
}

/// A longer digit string never has a smaller value.
proof fn lemma_number_grows(s: Seq<char>, i: int)
    requires
        0 <= i <= s.len(),
    ensures
        match (spec_number_val(s.take(i)), spec_number_val(s)) {
            (Some(v), Some(w)) => w >= v && v >= 0,
            (Some(v), None) => v >= 0,
            _ => true,
        },
    decreases s.len() - i,
{
    if i < s.len() {
        assert(s.take(i + 1).drop_last() =~= s.take(i));
        assert(s.take(i + 1).last() == s[i]);
        if i + 1 == s.len() {
            assert(s.take(i + 1) =~= s);
        }
        if spec_digit_val(s[i]) is None {
            lemma_number_none_if_bad_digit(s, i);
            lemma_number_nonneg(s.take(i));
        } else {
            lemma_number_grows(s, i + 1);
            lemma_number_nonneg(s.take(i));
        }
    } else {
        assert(s.take(i) =~= s);
        lemma_number_nonneg(s);
    }
}

/// A digit string's value is never negative.
proof fn lemma_number_nonneg(s: Seq<char>)
    ensures
        spec_number_val(s) matches Some(v) ==> v >= 0,
    decreases s.len(),
{
    if s.len() > 1 {
        lemma_number_nonneg(s.drop_last());
    }
}

/// Parse a decimal number that fits in sixteen bits.
pub fn parse_u16(s: &str) -> (r: Option<u16>)
    ensures
        match r {
            Some(v) => spec_number_val(s@) == Some(v as int),
            None => !(spec_number_val(s@) matches Some(v) && v <= u16::MAX),
        },
{
    let n = s.unicode_len();
    if n == 0 {
        return None;
    }
    let mut value: u32 = 0;
    let mut i: usize = 0;
    proof {
        assert(s@.take(0) =~= Seq::<char>::empty());
    }
    while i < n
        invariant
            n == s@.len(),
            0 < n,
            i <= n,
            i == 0 ==> value == 0,
            i > 0 ==> spec_number_val(s@.take(i as int)) == Some(value as int),
            value <= u16::MAX,
        decreases n - i,
    {
        let c = s.get_char(i);
        if !(c >= '0' && c <= '9') {
            proof {
                lemma_number_none_if_bad_digit(s@, i as int);
            }
            return None;
        }
        let d: u32 = (c as u32) - 48;
        let next: u32 = value * 10 + d;
        proof {
            assert(s@.take(i + 1).drop_last() =~= s@.take(i as int));
            assert(s@.take(i + 1).last() == s@[i as int]);
        }
        if next > 65535 {
            proof {
                lemma_number_grows(s@, i + 1);
            }
            return None;
        }
        value = next;
        i += 1;
    }
    proof {
        assert(s@.take(n as int) =~= s@);
    }
    Some(value as u16)
}

/// A non-digit anywhere makes the whole string's value undefined.
proof fn lemma_number_none_if_bad_digit(s: Seq<char>, i: int)
    requires
        0 <= i < s.len(),
        spec_digit_val(s[i]) is None,
    ensures
        spec_number_val(s) is None,
    decreases s.len(),
{
    if s.len() > 1 && i < s.len() - 1 {
        lemma_number_none_if_bad_digit(s.drop_last(), i);
    }
}

/// The calibration form: exactly one field, `ppm`, holding a number that
/// fits in sixteen bits.
pub open spec fn spec_calibrate_ppm(body: Seq<u8>) -> Option<u16> {
    match spec_form(body) {
        Some(pairs) => {
            if pairs.len() == 1 && pairs[0].0 == "ppm"@ {
                match spec_number_val(pairs[0].1) {
                    Some(v) => if v <= u16::MAX {
                        Some(v as u16)
                    } else {
                        None
                    },
                    None => None,
                }
            } else {
                None
            }
        },
        None => None,
    }
}

/// The WiFi form: exactly the fields `ssid` and `password`, in either order.
pub open spec fn spec_select_credentials(body: Seq<u8>) -> Option<(Seq<char>, Seq<char>)> {
    match spec_form(body) {
        Some(pairs) => {
            if pairs.len() == 2 && pairs[0].0 == "ssid"@ && pairs[1].0 == "password"@ {
                Some((pairs[0].1, pairs[1].1))
            } else if pairs.len() == 2 && pairs[0].0 == "password"@ && pairs[1].0 == "ssid"@ {
                Some((pairs[1].1, pairs[0].1))
            } else {
                None
            }
        },
        None => None,
    }
}

/// One JSON status body: `{"code":…,"status":…,"message":…}`.
pub open spec fn spec_json_response(code: u16, status: Seq<char>, message: Seq<char>) -> Seq<
    char,
> {
    "{\"code\":"@ + spec_decimal(code as nat) + ",\"status\":"@ + spec_json_string(status)
        + ",\"message\":"@ + spec_json_string(message) + "}"@
}

/// Build one JSON status response.
fn json_response(code: u16, status: &str, message: &str) -> (r: HttpResponse)
    ensures
        r.code == code,
        r.content_type@ == "application/json"@,
        r.body@ == spec_json_response(code, status@, message@),
{
    let mut body = String::new();
    body.append("{\"code\":");
    let code_text = crate::metric::fmt_u64(code as u64);
    body.append(code_text.as_str());
    body.append(",\"status\":");
    body.append("\"");
    let status_text = crate::metric::escape_str(status);
    body.append(status_text.as_str());
    body.append("\"");
    body.append(",\"message\":");
    body.append("\"");
    let message_text = crate::metric::escape_str(message);
    body.append(message_text.as_str());
    body.append("\"");
    body.append("}");
    proof {
        assert(body@ =~= spec_json_response(code, status@, message@));
    }
    HttpResponse { code, content_type: "application/json", body }
}

/// Handle the calibration form body: the parts-per-million value to forward
/// to the CO2 sensor, or the `400` response for a body that is not exactly
/// `ppm=<number>`.
pub fn handle_calibrate(body: &[u8]) -> (r: Result<u16, HttpResponse>)
    ensures
        match r {
            Ok(ppm) => spec_calibrate_ppm(body@) == Some(ppm),
            Err(rsp) => {
                &&& spec_calibrate_ppm(body@) is None
                &&& rsp.code == 400
                &&& rsp.body@ == spec_json_response(
                    400,
                    "Bad Request"@,
                    "malformed request body"@,
                )
            },
        },
{
    let bad = || -> (r: HttpResponse)
        ensures
            r.code == 400,
            r.body@ == spec_json_response(400, "Bad Request"@, "malformed request body"@),
        { json_response(400, "Bad Request", "malformed request body") };
    match parse_form(body) {
        Some(pairs) => {
            if pairs.len() != 1 {
                return Err(bad());
            }
            let key_ok = pairs[0].0 == "ppm".to_owned();
            if !key_ok {
                return Err(bad());
            }
            match parse_u16(pairs[0].1.as_str()) {
                Some(v) => Ok(v),
                None => Err(bad()),
            }
        },
        None => Err(bad()),
    }
}

/// The response after trying to enqueue a calibration command: `200` when
/// the control channel took it, `500` when it was full or closed.
pub fn calibrate_sent_response(sent: bool) -> (r: HttpResponse)
    ensures
        sent ==> r.code == 200 && r.body@ == spec_json_response(
            200,
            "OK"@,
            "recalibrated SCD30"@,
        ),
        !sent ==> r.code == 500 && r.body@ == spec_json_response(
            500,
            "Internal Server Error"@,
            "CO2 calibration channel error"@,
        ),
{
    if sent {
        json_response(200, "OK", "recalibrated SCD30")
    } else {
        json_response(500, "Internal Server Error", "CO2 calibration channel error")
    }
}

/// Handle the WiFi selection form body: the credentials to enqueue, or the
/// `400` response for a body that is not exactly `ssid=…&password=…`.
pub fn handle_wifi_select(body: &[u8]) -> (r: Result<Credentials, HttpResponse>)
    ensures
        match r {
            Ok(c) => spec_select_credentials(body@) == Some((c.ssid@, c.password@)),
            Err(rsp) => {
                &&& spec_select_credentials(body@) is None
                &&& rsp.code == 400
                &&& rsp.body@ == spec_json_response(
                    400,
                    "Bad Request"@,
                    "malformed request body"@,
                )
            },
        },
{
    let bad = || -> (r: HttpResponse)
        ensures
            r.code == 400,
            r.body@ == spec_json_response(400, "Bad Request"@, "malformed request body"@),
        { json_response(400, "Bad Request", "malformed request body") };
    match parse_form(body) {
        Some(mut pairs) => {
            if pairs.len() != 2 {
                return Err(bad());
            }
            let second = pairs.pop().unwrap();
            let first = pairs.pop().unwrap();
            let first_is_ssid = first.0 == "ssid".to_owned();
            let first_is_password = first.0 == "password".to_owned();
            let second_is_ssid = second.0 == "ssid".to_owned();
            let second_is_password = second.0 == "password".to_owned();
            if first_is_ssid && second_is_password {
                Ok(Credentials { ssid: first.1, password: second.1 })
            } else if first_is_password && second_is_ssid {
                Ok(Credentials { ssid: second.1, password: first.1 })
            } else {
                Err(bad())
            }
        },
        None => Err(bad()),
    }
}

/// The response after trying to enqueue credentials: `200` when the channel
/// took them, `500` when it was full or closed.
pub fn wifi_select_sent_response(sent: bool) -> (r: HttpResponse)
    ensures
        sent ==> r.code == 200 && r.body@ == spec_json_response(200, "OK"@, "Connected"@),
        !sent ==> r.code == 500 && r.body@ == spec_json_response(
            500,
            "Internal Server Error"@,
            "wifi control channel error"@,
        ),
{
    if sent {
        json_response(200, "OK", "Connected")
    } else {
        json_response(500, "Internal Server Error", "wifi control channel error")
    }
}

/// The comma-separated SSID strings of the scan report.
pub open spec fn spec_ssids_inner(aps: Seq<AccessPoint>) -> Seq<char>
    decreases aps.len(),
{
    if aps.len() == 0 {
        Seq::empty()
    } else if aps.len() == 1 {
        spec_json_string(aps[0].ssid@)
    } else {
        spec_ssids_inner(aps.drop_last()) + ","@ + spec_json_string(aps.last().ssid@)
    }
}

/// The scan report: a JSON array of the scanned network names, in order.
pub open spec fn spec_ssids_json(aps: Seq<AccessPoint>) -> Seq<char> {
    "["@ + spec_ssids_inner(aps) + "]"@
}

/// Render the scan snapshot as the JSON scan report.
pub fn ssids_json(aps: &Vec<AccessPoint>) -> (r: String)
    ensures
        r@ == spec_ssids_json(aps@),
{
    let mut out = String::new();
    out.append("[");
    let n = aps.len();
    let mut i: usize = 0;
    while i < n
        invariant
            n == aps@.len(),
            i <= n,
            out@ == "["@ + spec_ssids_inner(aps@.take(i as int)),
        decreases n - i,
    {
        if i > 0 {
            out.append(",");
        }
        out.append("\"");
        let ssid = crate::metric::escape_str(aps[i].ssid.as_str());
        out.append(ssid.as_str());
        out.append("\"");
        proof {
            assert(aps@.take(i + 1).drop_last() =~= aps@.take(i as int));
            assert(aps@.take(i + 1).last() == aps@[i as int]);
            assert(out@ =~= "["@ + spec_ssids_inner(aps@.take(i + 1)));
        }
        i += 1;
    }
    proof {
        assert(aps@.take(n as int) =~= aps@);
    }
    out.append("]");
    out
}

/// What the body reader does after one read returned `n` bytes into a
/// buffer of `len` bytes holding `total` so far.
#[derive(Copy, Clone, Debug, PartialEq, Eq, Structural)]
pub enum BodyStep {
    /// The producer signalled the end; this many bytes form the body.
    Done {
        /// The body's length.
        total: usize,
    },
    /// Keep reading into a buffer grown to this many bytes.
    Grow {
        /// The buffer's new length.
        new_len: usize,
    },
}

/// The body reader's growth rule: a read of zero bytes ends the body, and
/// any other read doubles the buffer, capped at `cap`.
pub fn read_body_step(total: usize, len: usize, n: usize, cap: usize) -> (r: BodyStep)
    ensures
        n == 0 ==> r == (BodyStep::Done { total }),
        n != 0 ==> r == (BodyStep::Grow {
            new_len: if 2 * len <= cap {
                (2 * len) as usize
            } else {
                cap
            },
        }),
{
    if n == 0 {
        BodyStep::Done { total }
    } else if len <= cap / 2 {
        BodyStep::Grow { new_len: len * 2 }
    } else {
        BodyStep::Grow { new_len: cap }
    }
}

} // verus!
