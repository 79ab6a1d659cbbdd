//! Metric cells and families: gauges, counters, and their text rendering.
//!
//! A family groups one named gauge or counter per label tuple, with optional
//! help and unit metadata, and renders itself in the Prometheus text
//! exposition format and as a JSON object. Gauge readings are fixed-point
//! decimals in thousandths, so every stored value has an exact text form.

use vstd::prelude::*;

use crate::registry::RegistryMap;

verus! {

/// The character for a single decimal digit.
pub open spec fn digit_char(d: nat) -> char {
    if d == 0 {
        '0'
    } else if d == 1 {
        '1'
    } else if d == 2 {
        '2'
    } else if d == 3 {
        '3'
    } else if d == 4 {
        '4'
    } else if d == 5 {
        '5'
    } else if d == 6 {
        '6'
    } else if d == 7 {
        '7'
    } else if d == 8 {
        '8'
    } else {
        '9'
    }
}

/// The decimal digits of `n`, most significant first, with no leading zeros
/// (a single `0` for zero).
pub open spec fn spec_decimal(n: nat) -> Seq<char>
    decreases n,
{
    if n < 10 {
        seq![digit_char(n)]
    } else {
        spec_decimal(n / 10).push(digit_char(n % 10))
    }
}

/// A single decimal digit as text.
fn digit_str(d: u64) -> (s: &'static str)
    requires
        d < 10,
    ensures
        s@ == seq![digit_char(d as nat)],
{
    proof {
        reveal_strlit("0");
        reveal_strlit("1");
        reveal_strlit("2");
        reveal_strlit("3");
        reveal_strlit("4");
        reveal_strlit("5");
        reveal_strlit("6");
        reveal_strlit("7");
        reveal_strlit("8");
        reveal_strlit("9");
    }
    match d {
        0 => "0",
        1 => "1",
        2 => "2",
        3 => "3",
        4 => "4",
        5 => "5",
        6 => "6",
        7 => "7",
        8 => "8",
        _ => "9",
    }
}

/// Render `n` in decimal.
pub fn fmt_u64(n: u64) -> (s: String)
    ensures
        s@ == spec_decimal(n as nat),
    decreases n,
{
    if n < 10 {
        digit_str(n).to_owned()
    } else {
        let mut s = fmt_u64(n / 10);
        s.append(digit_str(n % 10));
        s
    }
}

/// A gauge reading: a signed fixed-point decimal in thousandths.
#[derive(Copy, Clone, Debug, PartialEq, Eq, Structural)]
pub struct GaugeValue {
    /// Whether the reading is negative.
    pub neg: bool,
    /// The magnitude of the reading, in thousandths.
    pub milli: u64,
}

/// The fraction digits of a reading: three decimal places with trailing
/// zeros dropped, but always at least one digit.
pub open spec fn spec_fraction(frac: nat) -> Seq<char> {
    if frac % 10 != 0 {
        seq![digit_char(frac / 100), digit_char((frac / 10) % 10), digit_char(frac % 10)]
    } else if frac % 100 != 0 {
        seq![digit_char(frac / 100), digit_char((frac / 10) % 10)]
    } else {
        seq![digit_char(frac / 100)]
    }
}

impl GaugeValue {
    /// The reading's exact text: optional minus sign, integer part, a dot,
    /// and the fraction digits.
    pub open spec fn spec_text(self) -> Seq<char> {
        let magnitude = spec_decimal(self.milli as nat / 1000) + seq!['.'] + spec_fraction(
            self.milli as nat % 1000,
        );
        if self.neg {
            seq!['-'] + magnitude
        } else {
            magnitude
        }
    }

    /// A reading of exactly zero.
    pub fn zero() -> (r: GaugeValue)
        ensures
            r == (GaugeValue { neg: false, milli: 0u64 }),
    {
        GaugeValue { neg: false, milli: 0 }
    }

    /// A reading of `milli` thousandths, negative when `neg` is set.
    pub fn from_milli(neg: bool, milli: u64) -> (r: GaugeValue)
        ensures
            r == (GaugeValue { neg, milli }),
    {
        GaugeValue { neg, milli }
    }

    /// Render the reading as text.
    pub fn fmt(&self) -> (s: String)
        ensures
            s@ == self.spec_text(),
    {
        let mut s = String::new();
        if self.neg {
            s.append("-");
            proof {
                reveal_strlit("-");
                assert(s@ =~= seq!['-']);
            }
        }
        let int_part = self.milli / 1000;
        let frac = self.milli % 1000;
        let int_text = fmt_u64(int_part);
        s.append(int_text.as_str());
        s.append(".");
        proof {
            reveal_strlit(".");
        }
        let d1 = frac / 100;
        let d2 = (frac / 10) % 10;
        let d3 = frac % 10;
        s.append(digit_str(d1));
        if d3 != 0 {
            s.append(digit_str(d2));
            s.append(digit_str(d3));
        } else if d2 != 0 {
            s.append(digit_str(d2));
        }
        proof {
            assert(s@ =~= self.spec_text());
        }
        s
    }
}

/// A gauge cell: the last stored reading and the seconds-since-boot stamp of
/// the store.
#[derive(Copy, Clone, Debug, PartialEq, Eq, Structural)]
pub struct Gauge {
    /// The last stored reading.
    pub value: GaugeValue,
    /// Seconds since boot when the reading was stored.
    pub timestamp: u64,
}

impl Gauge {
    /// A fresh gauge: zero reading, zero stamp.
    pub fn new() -> (r: Gauge)
        ensures
            r == Gauge::spec_init(),
    {
        Gauge { value: GaugeValue { neg: false, milli: 0 }, timestamp: 0 }
    }

    /// The state a fresh gauge starts in.
    pub open spec fn spec_init() -> Gauge {
        Gauge { value: GaugeValue { neg: false, milli: 0u64 }, timestamp: 0u64 }
    }

    /// Store a reading, stamping it with the current seconds-since-boot.
    pub fn set_value(&mut self, value: GaugeValue, now: u64)
        ensures
            *final(self) == (Gauge { value, timestamp: now }),
    {
        self.value = value;
        self.timestamp = now;
    }

    /// Read the last stored reading.
    pub fn value(&self) -> (r: GaugeValue)
        ensures
            r == self.value,
    {
        self.value
    }
}

/// A counter cell: a monotonically increasing count and the stamp of the
/// last increment.
#[derive(Copy, Clone, Debug, PartialEq, Eq, Structural)]
pub struct Counter {
    /// The current count.
    pub value: u64,
    /// Seconds since boot when the count last changed.
    pub timestamp: u64,
}

impl Counter {
    /// A fresh counter: zero count, zero stamp.
    pub fn new() -> (r: Counter)
        ensures
            r == Counter::spec_init(),
    {
        Counter { value: 0, timestamp: 0 }
    }

    /// The state a fresh counter starts in.
    pub open spec fn spec_init() -> Counter {
        Counter { value: 0u64, timestamp: 0u64 }
    }

    /// Add one to the count, wrapping at the integer limit, and stamp the
    /// change with the current seconds-since-boot.
    pub fn incr(&mut self, now: u64)
        ensures
            final(self).value == if old(self).value < u64::MAX {
                old(self).value + 1
            } else {
                0int
            },
            final(self).timestamp == now,
    {
        self.value = self.value.wrapping_add(1);
        self.timestamp = now;
    }

    /// Read the current count.
    pub fn value(&self) -> (r: u64)
        ensures
            r == self.value,
    {
        self.value
    }
}

/// A metric cell kind: how a fresh cell starts, its Prometheus type keyword,
/// its sample value text, and its update stamp.
pub trait Metric: Sized {
    /// The Prometheus type keyword of this cell kind.
    spec fn spec_type() -> Seq<char>;

    /// The state a fresh cell starts in.
    spec fn spec_init() -> Self;

    /// The exact text of this cell's sample value.
    spec fn sample_text(&self) -> Seq<char>;

    /// The cell's seconds-since-boot update stamp.
    spec fn spec_stamp(&self) -> u64;

    /// The Prometheus type keyword.
    fn type_text() -> (r: &'static str)
        ensures
            r@ == Self::spec_type(),
    ;

    /// A fresh cell.
    fn init_cell() -> (r: Self)
        ensures
            r == Self::spec_init(),
    ;

    /// Render this cell's sample value.
    fn fmt_metric(&self) -> (r: String)
        ensures
            r@ == self.sample_text(),
    ;

    /// Read the cell's update stamp.
    fn stamp(&self) -> (r: u64)
        ensures
            r == self.spec_stamp(),
    ;
}

impl Metric for Gauge {
    open spec fn spec_type() -> Seq<char> {
        "gauge"@
    }

    open spec fn spec_init() -> Gauge {
        Gauge::spec_init()
    }

    open spec fn sample_text(&self) -> Seq<char> {
        self.value.spec_text()
    }

    open spec fn spec_stamp(&self) -> u64 {
        self.timestamp
    }

    fn type_text() -> (r: &'static str) {
        "gauge"
    }

    fn init_cell() -> (r: Gauge) {
        Gauge::new()
    }

    fn fmt_metric(&self) -> (r: String) {
        self.value.fmt()
    }

    fn stamp(&self) -> (r: u64) {
        self.timestamp
    }
}

impl Metric for Counter {
    open spec fn spec_type() -> Seq<char> {
        "counter"@
    }

    open spec fn spec_init() -> Counter {
        Counter::spec_init()
    }

    open spec fn sample_text(&self) -> Seq<char> {
        spec_decimal(self.value as nat)
    }

    open spec fn spec_stamp(&self) -> u64 {
        self.timestamp
    }

    fn type_text() -> (r: &'static str) {
        "counter"
    }

    fn init_cell() -> (r: Counter) {
        Counter::new()
    }

    fn fmt_metric(&self) -> (r: String) {
        fmt_u64(self.value)
    }

    fn stamp(&self) -> (r: u64) {
        self.timestamp
    }
}

/// An ordered tuple of `(key, value)` label pairs naming one time series.
pub type Labels = Vec<(String, String)>;

/// The character-level view of a label tuple.
pub open spec fn labels_view(ls: Seq<(String, String)>) -> Seq<(Seq<char>, Seq<char>)> {
    Seq::new(ls.len(), |i: int| (ls[i].0@, ls[i].1@))
}

/// Whether two label tuples carry the same keys and values.
pub fn labels_eq(a: &Labels, b: &Labels) -> (r: bool)
    ensures
        r == (labels_view(a@) == labels_view(b@)),
{
    if a.len() != b.len() {
        proof {
            assert(labels_view(a@).len() != labels_view(b@).len());
        }
        return false;
    }
    let n = a.len();
    let mut i: usize = 0;
    while i < n
        invariant
            n == a@.len() == b@.len(),
            i <= n,
            forall|j: int| 0 <= j < i ==> labels_view(a@)[j] == labels_view(b@)[j],
        decreases n - i,
    {
        let pa = &a[i];
        let pb = &b[i];
        if !(pa.0 == pb.0) || !(pa.1 == pb.1) {
            proof {
                assert(labels_view(a@)[i as int] != labels_view(b@)[i as int]);
            }
            return false;
        }
        i += 1;
    }
    proof {
        assert(labels_view(a@) =~= labels_view(b@));
    }
    true
}

/// The metadata of a metric family: name, optional help, optional unit.
#[derive(Debug)]
pub struct MetricDef {
    /// The family name, emitted verbatim.
    pub name: String,
    /// Optional help text.
    pub help: Option<String>,
    /// Optional unit text.
    pub unit: Option<String>,
}

impl MetricDef {
    /// A definition with the given name and no help or unit yet.
    pub fn new(name: &str) -> (r: MetricDef)
        ensures
            r.name@ == name@,
            r.help is None,
            r.unit is None,
    {
        MetricDef { name: name.to_owned(), help: None, unit: None }
    }

    /// The same definition with the given help text.
    pub fn with_help(self, help: &str) -> (r: MetricDef)
        ensures
            r.name == self.name,
            r.unit == self.unit,
            r.help matches Some(h) && h@ == help@,
    {
        MetricDef { help: Some(help.to_owned()), ..self }
    }

    /// The same definition with the given unit text.
    pub fn with_unit(self, unit: &str) -> (r: MetricDef)
        ensures
            r.name == self.name,
            r.help == self.help,
            r.unit matches Some(u) && u@ == unit@,
    {
        MetricDef { unit: Some(unit.to_owned()), ..self }
    }

    /// Turn the definition into an empty family with the given capacity.
    pub fn with_metrics<M: Metric>(self, capacity: usize) -> (r: MetricFamily<M>)
        ensures
            r.def == self,
            r.metrics@ == Seq::<(Labels, M)>::empty(),
            r.metrics.spec_capacity() == capacity,
    {
        MetricFamily { def: self, metrics: RegistryMap::new(capacity) }
    }
}

/// One `# TYPE` directive line.
pub open spec fn spec_type_line(name: Seq<char>, ty: Seq<char>) -> Seq<char> {
    "# TYPE "@ + name + " "@ + ty + "\n"@
}

/// One `# HELP` directive line.
pub open spec fn spec_help_line(name: Seq<char>, help: Seq<char>) -> Seq<char> {
    "# HELP "@ + name + " "@ + help + "\n"@
}

/// One `# UNIT` directive line.
pub open spec fn spec_unit_line(name: Seq<char>, unit: Seq<char>) -> Seq<char> {
    "# UNIT "@ + name + " "@ + unit + "\n"@
}

/// One label pair as `key="value"`.
pub open spec fn spec_label_pair(l: (Seq<char>, Seq<char>)) -> Seq<char> {
    l.0 + "=\""@ + l.1 + "\""@
}

/// The comma-separated label pairs, without braces.
pub open spec fn spec_labels_inner(ls: Seq<(Seq<char>, Seq<char>)>) -> Seq<char>
    decreases ls.len(),
{
    if ls.len() == 0 {
        Seq::empty()
    } else if ls.len() == 1 {
        spec_label_pair(ls[0])
    } else {
        spec_labels_inner(ls.drop_last()) + ","@ + spec_label_pair(ls.last())
    }
}

/// The label block `{k1="v1",k2="v2"}`; a tuple with zero entries produces
/// no braces.
pub open spec fn spec_labels_text(ls: Seq<(Seq<char>, Seq<char>)>) -> Seq<char> {
    if ls.len() == 0 {
        Seq::empty()
    } else {
        "{"@ + spec_labels_inner(ls) + "}"@
    }
}

/// One sample line: name, label block, a space, the sample value, a newline.
pub open spec fn spec_sample_line(
    name: Seq<char>,
    labels: Seq<(Seq<char>, Seq<char>)>,
    sample: Seq<char>,
) -> Seq<char> {
    name + spec_labels_text(labels) + " "@ + sample + "\n"@
}

/// The sample lines of a family's cells, in registration order.
pub open spec fn spec_samples<M: Metric>(name: Seq<char>, rows: Seq<(Labels, M)>) -> Seq<char>
    decreases rows.len(),
{
    if rows.len() == 0 {
        Seq::empty()
    } else {
        spec_samples(name, rows.drop_last()) + spec_sample_line(
            name,
            labels_view(rows.last().0@),
            rows.last().1.sample_text(),
        )
    }
}

/// A string with `"` and `\` escaped for embedding in JSON text.
pub open spec fn spec_escaped(s: Seq<char>) -> Seq<char>
    decreases s.len(),
{
    if s.len() == 0 {
        Seq::empty()
    } else {
        spec_escaped(s.drop_last()) + (if s.last() == '"' || s.last() == '\\' {
            seq!['\\', s.last()]
        } else {
            seq![s.last()]
        })
    }
}

/// Escape `"` and `\` in a string for embedding in JSON text.
pub fn escape_str(s: &str) -> (r: String)
    ensures
        r@ == spec_escaped(s@),
{
    let n = s.unicode_len();
    let mut out = String::new();
    let mut i: usize = 0;
    while i < n
        invariant
            n == s@.len(),
            i <= n,
            out@ == spec_escaped(s@.take(i as int)),
        decreases n - i,
    {
        let c = s.get_char(i);
        if c == '"' {
            out.append("\\\"");
            proof {
                reveal_strlit("\\\"");
            }
        } else if c == '\\' {
            out.append("\\\\");
            proof {
                reveal_strlit("\\\\");
            }
        } else {
            out.append(s.substring_char(i, i + 1));
        }
        proof {
            assert(s@.take(i + 1).drop_last() =~= s@.take(i as int));
            assert(s@.take(i + 1).last() == s@[i as int]);
        }
        i += 1;
    }
    proof {
        assert(s@.take(n as int) =~= s@);
    }
    out
}

/// A JSON string token: the escaped text in double quotes.
pub open spec fn spec_json_string(s: Seq<char>) -> Seq<char> {
    "\""@ + spec_escaped(s) + "\""@
}

/// One label pair as a JSON object member.
pub open spec fn spec_json_label_pair(l: (Seq<char>, Seq<char>)) -> Seq<char> {
    spec_json_string(l.0) + ":"@ + spec_json_string(l.1)
}

/// The comma-separated JSON members of a label tuple.
pub open spec fn spec_json_labels_inner(ls: Seq<(Seq<char>, Seq<char>)>) -> Seq<char>
    decreases ls.len(),
{
    if ls.len() == 0 {
        Seq::empty()
    } else if ls.len() == 1 {
        spec_json_label_pair(ls[0])
    } else {
        spec_json_labels_inner(ls.drop_last()) + ","@ + spec_json_label_pair(ls.last())
    }
}

/// One cell as a JSON object: its labels, sample value and update stamp.
pub open spec fn spec_json_row(
    labels: Seq<(Seq<char>, Seq<char>)>,
    sample: Seq<char>,
    stamp: u64,
) -> Seq<char> {
    "{\"labels\":{"@ + spec_json_labels_inner(labels) + "},\"value\":"@ + sample
        + ",\"timestamp\":"@ + spec_decimal(stamp as nat) + "}"@
}

/// The comma-separated JSON objects of a family's cells.
pub open spec fn spec_json_rows<M: Metric>(rows: Seq<(Labels, M)>) -> Seq<char>
    decreases rows.len(),
{
    if rows.len() == 0 {
        Seq::empty()
    } else if rows.len() == 1 {
        spec_json_row(labels_view(rows[0].0@), rows[0].1.sample_text(), rows[0].1.spec_stamp())
    } else {
        spec_json_rows(rows.drop_last()) + ","@ + spec_json_row(
            labels_view(rows.last().0@),
            rows.last().1.sample_text(),
            rows.last().1.spec_stamp(),
        )
    }
}

/// Exposition law: a family's rendered text is exactly one `# TYPE` line,
/// then a `# HELP` line exactly when the definition has help text and a
/// `# UNIT` line exactly when it has a unit, then the cells' sample lines in
/// registration order; every sample line is the family name, the label block,
/// one space, the sample value, and a terminating newline.
pub proof fn lemma_prometheus_exposition_shape<M: Metric>(fam: &MetricFamily<M>)
    ensures
        fam.spec_text() == spec_type_line(fam.def.name@, M::spec_type()) + (match fam.def.help {
            Some(h) => spec_help_line(fam.def.name@, h@),
            None => Seq::<char>::empty(),
        }) + (match fam.def.unit {
            Some(u) => spec_unit_line(fam.def.name@, u@),
            None => Seq::<char>::empty(),
        }) + spec_samples(fam.def.name@, fam.metrics@),
        forall|i: int|
            0 <= i < fam.metrics@.len() ==> #[trigger] spec_samples(
                fam.def.name@,
                fam.metrics@.take(i + 1),
            ) == spec_samples(fam.def.name@, fam.metrics@.take(i)) + spec_sample_line(
                fam.def.name@,
                labels_view(fam.metrics@[i].0@),
                fam.metrics@[i].1.sample_text(),
            ),
        forall|labels: Seq<(Seq<char>, Seq<char>)>, sample: Seq<char>|
            #[trigger] spec_sample_line(fam.def.name@, labels, sample) == fam.def.name@
                + spec_labels_text(labels) + " "@ + sample + "\n"@ && spec_sample_line(
                fam.def.name@,
                labels,
                sample,
            ).last() == '\n',
{
    assert forall|i: int| 0 <= i < fam.metrics@.len() implies #[trigger] spec_samples(
        fam.def.name@,
        fam.metrics@.take(i + 1),
    ) == spec_samples(fam.def.name@, fam.metrics@.take(i)) + spec_sample_line(
        fam.def.name@,
        labels_view(fam.metrics@[i].0@),
        fam.metrics@[i].1.sample_text(),
    ) by {
        assert(fam.metrics@.take(i + 1).drop_last() =~= fam.metrics@.take(i));
        assert(fam.metrics@.take(i + 1).last() == fam.metrics@[i]);
    }
    assert forall|labels: Seq<(Seq<char>, Seq<char>)>, sample: Seq<char>|
        #[trigger] spec_sample_line(fam.def.name@, labels, sample).last() == '\n' by {
        reveal_strlit("\n");
        assert("\n"@.len() == 1 && "\n"@[0] == '\n');
    }
}

/// A family of like-typed metric cells, one per label tuple.
#[derive(Debug)]
pub struct MetricFamily<M> {
    /// The family's metadata.
    pub def: MetricDef,
    /// The registered cells, keyed by label tuple.
    pub metrics: RegistryMap<Labels, M>,
}

impl<M: Metric> MetricFamily<M> {
    /// The family's full Prometheus exposition text: exactly one `# TYPE`
    /// line, then one `# HELP` and one `# UNIT` line when the definition has
    /// them, then one sample line per cell.
    pub open spec fn spec_text(&self) -> Seq<char> {
        spec_type_line(self.def.name@, M::spec_type()) + (match self.def.help {
            Some(h) => spec_help_line(self.def.name@, h@),
            None => Seq::<char>::empty(),
        }) + (match self.def.unit {
            Some(u) => spec_unit_line(self.def.name@, u@),
            None => Seq::<char>::empty(),
        }) + spec_samples(self.def.name@, self.metrics@)
    }

    /// The cell registered for a label tuple: the first slot whose labels
    /// match. New tuples claim the next free slot with a fresh cell; a tuple
    /// seen before returns its existing slot unchanged. Returns `None` only
    /// when the tuple is new and every slot is taken.
    pub fn register(&mut self, labels: Labels) -> (r: Option<usize>)
        ensures
            final(self).def == old(self).def,
            final(self).metrics.spec_capacity() == old(self).metrics.spec_capacity(),
            match r {
                Some(idx) => {
                    &&& idx < final(self).metrics@.len()
                    &&& labels_view(final(self).metrics@[idx as int].0@) == labels_view(labels@)
                    &&& forall|j: int|
                        0 <= j < idx ==> labels_view(old(self).metrics@[j].0@) != labels_view(
                            labels@,
                        )
                    &&& if idx < old(self).metrics@.len() {
                        final(self).metrics@ == old(self).metrics@
                    } else {
                        &&& idx == old(self).metrics@.len()
                        &&& old(self).metrics@.len() < old(self).metrics.spec_capacity()
                        &&& final(self).metrics@ == old(self).metrics@.push(
                            (labels, M::spec_init()),
                        )
                    }
                },
                None => {
                    &&& final(self).metrics@ == old(self).metrics@
                    &&& old(self).metrics@.len() >= old(self).metrics.spec_capacity()
                    &&& forall|j: int|
                        0 <= j < old(self).metrics@.len() ==> labels_view(
                            old(self).metrics@[j].0@,
                        ) != labels_view(labels@)
                },
            },
    {
        let n = self.metrics.len();
        let mut i: usize = 0;
        while i < n
            invariant
                n == self.metrics@.len(),
                i <= n,
                forall|j: int|
                    0 <= j < i ==> labels_view(self.metrics@[j].0@) != labels_view(labels@),
            decreases n - i,
        {
            let row = self.metrics.get(i);
            if labels_eq(&row.0, &labels) {
                return Some(i);
            }
            i += 1;
        }
        match self.metrics.register(labels, M::init_cell()) {
            Ok(idx) => Some(idx),
            Err(_) => None,
        }
    }

    /// How many cells are registered.
    pub fn len(&self) -> (r: usize)
        ensures
            r == self.metrics@.len(),
    {
        self.metrics.len()
    }

    /// The family's cells, keyed by label tuple.
    pub fn metrics(&self) -> (r: &RegistryMap<Labels, M>)
        ensures
            r == &self.metrics,
    {
        &self.metrics
    }

    /// Read the cell registered under `idx`, with its label tuple.
    pub fn get(&self, idx: usize) -> (r: &(Labels, M))
        requires
            idx < self.metrics@.len(),
        ensures
            *r == self.metrics@[idx as int],
    {
        self.metrics.get(idx)
    }

    /// Render the family in the Prometheus text exposition format.
    #[verifier::rlimit(50)]
    pub fn fmt_metric(&self) -> (r: String)
        ensures
            r@ == self.spec_text(),
    {
        let mut out = String::new();
        out.append("# TYPE ");
        out.append(self.def.name.as_str());
        out.append(" ");
        out.append(M::type_text());
        out.append("\n");
        match &self.def.help {
            Some(h) => {
                out.append("# HELP ");
                out.append(self.def.name.as_str());
                out.append(" ");
                out.append(h.as_str());
                out.append("\n");
            },
            None => {},
        }
        match &self.def.unit {
            Some(u) => {
                out.append("# UNIT ");
                out.append(self.def.name.as_str());
                out.append(" ");
                out.append(u.as_str());
                out.append("\n");
            },
            None => {},
        }
        let ghost header: Seq<char> = out@;
        let n = self.metrics.len();
        let mut i: usize = 0;
        while i < n
            invariant
                n == self.metrics@.len(),
                i <= n,
                out@ == header + spec_samples(self.def.name@, self.metrics@.take(i as int)),
            decreases n - i,
        {
            let row = self.metrics.get(i);
            out.append(self.def.name.as_str());
            if row.0.len() > 0 {
                out.append("{");
                let ghost with_brace: Seq<char> = out@;
                let m = row.0.len();
                let mut j: usize = 0;
                while j < m
                    invariant
                        m == row.0@.len(),
                        j <= m,
                        out@ == with_brace + spec_labels_inner(labels_view(row.0@).take(j as int)),
                    decreases m - j,
                {
                    if j > 0 {
                        out.append(",");
                    }
                    let pair = &row.0[j];
                    out.append(pair.0.as_str());
                    out.append("=\"");
                    out.append(pair.1.as_str());
                    out.append("\"");
                    proof {
                        let lv = labels_view(row.0@);
                        assert(lv.take(j + 1).drop_last() =~= lv.take(j as int));
                        assert(lv.take(j + 1).last() == lv[j as int]);
                    }
                    j += 1;
                }
                out.append("}");
                proof {
                    let lv = labels_view(row.0@);
                    assert(lv.take(m as int) =~= lv);
                }
            } else {
                proof {
                    assert(labels_view(row.0@).len() == 0);
                }
            }
            out.append(" ");
            let sample = row.1.fmt_metric();
            out.append(sample.as_str());
            out.append("\n");
            proof {
                let rows = self.metrics@;
                assert(rows.take(i + 1).drop_last() =~= rows.take(i as int));
                assert(rows.take(i + 1).last() == rows[i as int]);
            }
            i += 1;
        }
        proof {
            assert(self.metrics@.take(n as int) =~= self.metrics@);
        }
        out
    }

    /// The family's cells as a JSON array text, in registration order.
    pub open spec fn spec_json(&self) -> Seq<char> {
        "["@ + spec_json_rows(self.metrics@) + "]"@
    }

    /// Render the family's cells as a JSON array.
    #[verifier::rlimit(50)]
    pub fn fmt_json(&self) -> (r: String)
        ensures
            r@ == self.spec_json(),
    {
        let mut out = String::new();
        out.append("[");
        let n = self.metrics.len();
        let mut i: usize = 0;
        while i < n
            invariant
                n == self.metrics@.len(),
                i <= n,
                out@ == "["@ + spec_json_rows(self.metrics@.take(i as int)),
            decreases n - i,
        {
            if i > 0 {
                out.append(",");
            }
            let row = self.metrics.get(i);
            out.append("{\"labels\":{");
            let ghost labels_start: Seq<char> = out@;
            let m = row.0.len();
            let mut j: usize = 0;
            while j < m
                invariant
                    m == row.0@.len(),
                    j <= m,
                    out@ == labels_start + spec_json_labels_inner(
                        labels_view(row.0@).take(j as int),
                    ),
                decreases m - j,
            {
                if j > 0 {
                    out.append(",");
                }
                let pair = &row.0[j];
                out.append("\"");
                let k = escape_str(pair.0.as_str());
                out.append(k.as_str());
                out.append("\"");
                out.append(":");
                out.append("\"");
                let v = escape_str(pair.1.as_str());
                out.append(v.as_str());
                out.append("\"");
                proof {
                    let lv = labels_view(row.0@);
                    assert(lv.take(j + 1).drop_last() =~= lv.take(j as int));
                    assert(lv.take(j + 1).last() == lv[j as int]);
                    assert(out@ =~= labels_start + spec_json_labels_inner(lv.take(j + 1)));
                }
                j += 1;
            }
            proof {
                let lv = labels_view(row.0@);
                assert(lv.take(m as int) =~= lv);
            }
            out.append("},\"value\":");
            let sample = row.1.fmt_metric();
            out.append(sample.as_str());
            out.append(",\"timestamp\":");
            let ts = fmt_u64(row.1.stamp());
            out.append(ts.as_str());
            out.append("}");
            proof {
                let rows = self.metrics@;
                assert(rows.take(i + 1).drop_last() =~= rows.take(i as int));
                assert(rows.take(i + 1).last() == rows[i as int]);
            }
            i += 1;
        }
        proof {
            assert(self.metrics@.take(n as int) =~= self.metrics@);
        }
        out.append("]");
        out
    }
}

impl MetricFamily<Gauge> {
    /// Store a reading in the cell registered under `idx`, stamped `now`.
    pub fn set_value(&mut self, idx: usize, value: GaugeValue, now: u64)
        requires
            idx < old(self).metrics@.len(),
        ensures
            final(self).def == old(self).def,
            final(self).metrics.spec_capacity() == old(self).metrics.spec_capacity(),
            final(self).metrics@ == old(self).metrics@.update(
                idx as int,
                (old(self).metrics@[idx as int].0, Gauge { value, timestamp: now }),
            ),
    {
        let cell = self.metrics.get_value_mut(idx);
        cell.set_value(value, now);
    }

    /// Read the cell registered under `idx`.
    pub fn value(&self, idx: usize) -> (r: GaugeValue)
        requires
            idx < self.metrics@.len(),
        ensures
            r == self.metrics@[idx as int].1.value,
    {
        self.metrics.get(idx).1.value()
    }
}

/// A family's rows after one cell's reading is stored: the cell at `idx`
/// holds the new reading and stamp, everything else stands.
pub open spec fn spec_gauge_set(
    rows: Seq<(Labels, Gauge)>,
    idx: int,
    value: GaugeValue,
    now: u64,
) -> Seq<(Labels, Gauge)> {
    rows.update(idx, (rows[idx].0, Gauge { value, timestamp: now }))
}

/// The sum of the non-negative readings of a family's cells, in
/// thousandths.
pub open spec fn spec_pos_sum(rows: Seq<(Labels, Gauge)>) -> int
    decreases rows.len(),
{
    if rows.len() == 0 {
        0
    } else {
        spec_pos_sum(rows.drop_last()) + if rows.last().1.value.neg {
            0
        } else {
            rows.last().1.value.milli as int
        }
    }
}

/// The sum of the magnitudes of the negative readings of a family's cells,
/// in thousandths.
pub open spec fn spec_neg_sum(rows: Seq<(Labels, Gauge)>) -> int
    decreases rows.len(),
{
    if rows.len() == 0 {
        0
    } else {
        spec_neg_sum(rows.drop_last()) + if rows.last().1.value.neg {
            rows.last().1.value.milli as int
        } else {
            0
        }
    }
}

/// The mean of a family's readings, rounded toward zero; `None` for a
/// family with no cells.
pub open spec fn spec_average(rows: Seq<(Labels, Gauge)>) -> Option<GaugeValue> {
    if rows.len() == 0 {
        None
    } else if spec_pos_sum(rows) >= spec_neg_sum(rows) {
        Some(
            GaugeValue {
                neg: false,
                milli: ((spec_pos_sum(rows) - spec_neg_sum(rows)) / rows.len() as int) as u64,
            },
        )
    } else {
        Some(
            GaugeValue {
                neg: true,
                milli: ((spec_neg_sum(rows) - spec_pos_sum(rows)) / rows.len() as int) as u64,
            },
        )
    }
}

/// Both partial sums stay within the cell count times the largest reading.
proof fn lemma_sums_bounded(rows: Seq<(Labels, Gauge)>)
    ensures
        0 <= spec_pos_sum(rows) <= rows.len() * (u64::MAX as int),
        0 <= spec_neg_sum(rows) <= rows.len() * (u64::MAX as int),
    decreases rows.len(),
{
    if rows.len() > 0 {
        lemma_sums_bounded(rows.drop_last());
        assert((rows.len() - 1) * (u64::MAX as int) + (u64::MAX as int) == rows.len() * (
        u64::MAX as int)) by (nonlinear_arith);
    }
}

impl MetricFamily<Gauge> {
    /// The mean of the family's readings, rounded toward zero; `None` when
    /// no cell is registered yet.
    pub fn average(&self) -> (r: Option<GaugeValue>)
        ensures
            r == spec_average(self.metrics@),
    {
        let n = self.metrics.len();
        if n == 0 {
            return None;
        }
        let mut pos: u128 = 0;
        let mut neg: u128 = 0;
        let mut i: usize = 0;
        proof {
            assert(self.metrics@.take(0) =~= Seq::<(Labels, Gauge)>::empty());
            lemma_sums_bounded(self.metrics@.take(0));
        }
        while i < n
            invariant
                n == self.metrics@.len(),
                0 < n <= usize::MAX,
                i <= n,
                pos == spec_pos_sum(self.metrics@.take(i as int)),
                neg == spec_neg_sum(self.metrics@.take(i as int)),
                pos <= (i as int) * (u64::MAX as int),
                neg <= (i as int) * (u64::MAX as int),
            decreases n - i,
        {
            let cell = &self.metrics.get(i).1;
            proof {
                assert(self.metrics@.take(i + 1).drop_last() =~= self.metrics@.take(i as int));
                assert(self.metrics@.take(i + 1).last() == self.metrics@[i as int]);
                assert((i as int) * (u64::MAX as int) + (u64::MAX as int) == (i + 1) * (
                u64::MAX as int)) by (nonlinear_arith);
                assert((i + 1) * (u64::MAX as int) <= (usize::MAX as int) * (u64::MAX as int)) by (
                nonlinear_arith)
                    requires
                        0 <= i,
                        i + 1 <= usize::MAX,
                ;
            }
            if cell.value.neg {
                neg = neg + (cell.value.milli as u128);
            } else {
                pos = pos + (cell.value.milli as u128);
            }
            i += 1;
        }
        proof {
            assert(self.metrics@.take(n as int) =~= self.metrics@);
        }
        let count = n as u128;
        if pos >= neg {
            let q = (pos - neg) / count;
            proof {
                lemma_average_fits(pos as int - neg as int, n as int);
            }
            Some(GaugeValue { neg: false, milli: q as u64 })
        } else {
            let q = (neg - pos) / count;
            proof {
                lemma_average_fits(neg as int - pos as int, n as int);
            }
            Some(GaugeValue { neg: true, milli: q as u64 })
        }
    }
}

/// A mean over `count` readings fits in the readings' own range.
proof fn lemma_average_fits(diff: int, count: int)
    requires
        count >= 1,
        0 <= diff <= count * (u64::MAX as int),
    ensures
        0 <= diff / count <= u64::MAX as int,
{
    assert(diff / count <= u64::MAX as int) by (nonlinear_arith)
        requires
            count >= 1,
            0 <= diff <= count * (u64::MAX as int),
    ;
    assert(diff / count >= 0) by (nonlinear_arith)
        requires
            count >= 1,
            diff >= 0,
    ;
}

impl MetricFamily<Counter> {
    /// Add one to the cell registered under `idx`, stamped `now`.
    pub fn incr(&mut self, idx: usize, now: u64)
        requires
            idx < old(self).metrics@.len(),
        ensures
            final(self).def == old(self).def,
            final(self).metrics.spec_capacity() == old(self).metrics.spec_capacity(),
            final(self).metrics@ == old(self).metrics@.update(
                idx as int,
                (
                    old(self).metrics@[idx as int].0,
                    Counter {
                        value: if old(self).metrics@[idx as int].1.value < u64::MAX {
                            (old(self).metrics@[idx as int].1.value + 1) as u64
                        } else {
                            0u64
                        },
                        timestamp: now,
                    },
                ),
            ),
    {
        let cell = self.metrics.get_value_mut(idx);
        cell.incr(now);
    }

    /// Read the cell registered under `idx`.
    pub fn value(&self, idx: usize) -> (r: u64)
        requires
            idx < self.metrics@.len(),
        ensures
            r == self.metrics@[idx as int].1.value,
    {
        self.metrics.get(idx).1.value()
    }
}

} // verus!
