//! Sensor supervision: the per-sensor bring-up/poll/control state machine
//! and the shared registry of health status cells.
//!
//! The supervisor is a pure state machine: the surrounding task performs the
//! bus work and the waiting, hands the outcome in as a [`SensorEvent`], and
//! carries out the returned [`SensorAction`].

use vstd::prelude::*;

use crate::metric::{spec_escaped, spec_json_string};
use crate::registry::RegistryMap;
use crate::retry::{spec_after_wait, ExpBackoff};

pub mod ens160;
pub mod status;

use status::{Status, StatusCell};

verus! {

/// What the sensor task observed since the last step.
#[derive(Copy, Clone, Debug, PartialEq, Eq, Structural)]
pub enum SensorEvent {
    /// Bring-up succeeded: the driver is alive and its cells are registered.
    BringUpOk,
    /// Bring-up failed; the device may be absent.
    BringUpFailed,
    /// One measurement cycle succeeded.
    PollOk,
    /// One measurement cycle failed.
    PollFailed,
    /// A control message was handled successfully.
    ControlOk,
    /// A control message could not be honored.
    ControlFailed,
}

/// What the sensor task must do next.
#[derive(Copy, Clone, Debug, PartialEq, Eq, Structural)]
pub enum SensorAction {
    /// Wait this many milliseconds, then attempt bring-up again.
    RetryBringUp {
        /// Milliseconds to wait before the attempt.
        delay_ms: u64,
    },
    /// Wait this many milliseconds, then poll.
    Poll {
        /// Milliseconds to wait before the poll.
        delay_ms: u64,
    },
    /// Keep the existing poll schedule; control handling does not disturb it.
    Continue,
}

/// The supervisor of one sensor: its health status, its backoff state, its
/// poll cadence and its error count.
#[derive(Debug)]
pub struct Manager {
    /// The sensor's published health status.
    pub status: Status,
    /// Backoff for bring-up retries and poll recovery.
    pub backoff: ExpBackoff,
    /// The sensor's poll cadence, in milliseconds.
    pub poll_interval_ms: u64,
    /// How many failures the supervisor has seen.
    pub errors: u64,
    /// Whether bring-up has ever succeeded.
    pub brought_up: bool,
}

impl Manager {
    /// The status is `Missing` exactly until bring-up first succeeds.
    pub open spec fn wf(&self) -> bool {
        self.brought_up <==> self.status != Status::Missing
    }

    /// Whether the event can occur in the supervisor's current phase:
    /// bring-up outcomes before the first success, poll and control outcomes
    /// after it.
    pub open spec fn accepts(&self, ev: SensorEvent) -> bool {
        match ev {
            SensorEvent::BringUpOk | SensorEvent::BringUpFailed => !self.brought_up,
            SensorEvent::PollOk | SensorEvent::PollFailed | SensorEvent::ControlOk
            | SensorEvent::ControlFailed => self.brought_up,
        }
    }

    /// A supervisor that has never brought its sensor up: status `Missing`,
    /// bring-up retried under backoff starting at `retry_backoff_ms`.
    pub fn new(retry_backoff_ms: u64, poll_interval_ms: u64, target: &'static str) -> (r: Manager)
        ensures
            r.status == Status::Missing,
            r.backoff.initial == retry_backoff_ms,
            r.backoff.current == retry_backoff_ms,
            r.backoff.max == crate::retry::DEFAULT_MAX_BACKOFF_MS,
            r.poll_interval_ms == poll_interval_ms,
            r.errors == 0,
            !r.brought_up,
            r.wf(),
    {
        Manager {
            status: Status::Missing,
            backoff: ExpBackoff::new(retry_backoff_ms).with_target(target),
            poll_interval_ms,
            errors: 0,
            brought_up: false,
        }
    }

    /// The status after an event: a successful bring-up or poll makes the
    /// sensor `Up`; a failed poll or control message makes it `Down`; a
    /// failed bring-up leaves it `Missing`; a handled control message
    /// changes nothing.
    pub open spec fn spec_next_status(s: Status, ev: SensorEvent) -> Status {
        match ev {
            SensorEvent::BringUpOk => Status::Up,
            SensorEvent::BringUpFailed => s,
            SensorEvent::PollOk => Status::Up,
            SensorEvent::PollFailed => Status::Down,
            SensorEvent::ControlOk => s,
            SensorEvent::ControlFailed => Status::Down,
        }
    }

    /// Whether an event counts as a failure in the error counter.
    pub open spec fn spec_counts_error(ev: SensorEvent) -> bool {
        match ev {
            SensorEvent::BringUpFailed | SensorEvent::PollFailed | SensorEvent::ControlFailed =>
                true,
            _ => false,
        }
    }

    /// Drive the supervisor by one observed event.
    ///
    /// - successful bring-up: status `Up`, backoff restarted at the poll
    ///   cadence, poll at once;
    /// - failed bring-up: wait the current backoff delay (which then
    ///   doubles, capped) and try again;
    /// - successful poll: status `Up`, backoff reset, next poll after the
    ///   poll cadence;
    /// - failed poll: status `Down`, next poll after the current backoff
    ///   delay (which then doubles, capped);
    /// - control outcomes change no schedule; a failure counts as `Down`.
    ///
    /// Every failure event adds one to the error count.
    pub fn step(&mut self, ev: SensorEvent) -> (action: SensorAction)
        requires
            old(self).wf(),
            old(self).accepts(ev),
        ensures
            final(self).wf(),
            final(self).status == Manager::spec_next_status(old(self).status, ev),
            final(self).poll_interval_ms == old(self).poll_interval_ms,
            final(self).brought_up == (old(self).brought_up || ev == SensorEvent::BringUpOk),
            final(self).errors == if Manager::spec_counts_error(ev) && old(self).errors
                < u64::MAX {
                old(self).errors + 1
            } else {
                old(self).errors as int
            },
            match ev {
                SensorEvent::BringUpOk => {
                    &&& action == (SensorAction::Poll { delay_ms: 0u64 })
                    &&& final(self).backoff.initial == old(self).poll_interval_ms
                    &&& final(self).backoff.current == old(self).poll_interval_ms
                    &&& final(self).backoff.max == crate::retry::DEFAULT_MAX_BACKOFF_MS
                },
                SensorEvent::BringUpFailed => {
                    &&& action == (SensorAction::RetryBringUp {
                        delay_ms: old(self).backoff.current,
                    })
                    &&& final(self).backoff.current == spec_after_wait(
                        old(self).backoff.current,
                        old(self).backoff.max,
                    )
                    &&& final(self).backoff.initial == old(self).backoff.initial
                    &&& final(self).backoff.max == old(self).backoff.max
                },
                SensorEvent::PollOk => {
                    &&& action == (SensorAction::Poll { delay_ms: old(self).poll_interval_ms })
                    &&& final(self).backoff.current == old(self).backoff.initial
                    &&& final(self).backoff.initial == old(self).backoff.initial
                    &&& final(self).backoff.max == old(self).backoff.max
                },
                SensorEvent::PollFailed => {
                    &&& action == (SensorAction::Poll { delay_ms: old(self).backoff.current })
                    &&& final(self).backoff.current == spec_after_wait(
                        old(self).backoff.current,
                        old(self).backoff.max,
                    )
                    &&& final(self).backoff.initial == old(self).backoff.initial
                    &&& final(self).backoff.max == old(self).backoff.max
                },
                SensorEvent::ControlOk | SensorEvent::ControlFailed => {
                    &&& action == SensorAction::Continue
                    &&& final(self).backoff == old(self).backoff
                },
            },
    {
        match ev {
            SensorEvent::BringUpOk => {
                self.status = Status::Up;
                self.brought_up = true;
                self.backoff = ExpBackoff::new(self.poll_interval_ms).with_target(
                    self.backoff.target,
                );
                SensorAction::Poll { delay_ms: 0 }
            },
            SensorEvent::BringUpFailed => {
                self.count_error();
                let delay_ms = self.backoff.wait();
                SensorAction::RetryBringUp { delay_ms }
            },
            SensorEvent::PollOk => {
                self.status = Status::Up;
                self.backoff.reset();
                SensorAction::Poll { delay_ms: self.poll_interval_ms }
            },
            SensorEvent::PollFailed => {
                self.status = Status::Down;
                self.count_error();
                let delay_ms = self.backoff.wait();
                SensorAction::Poll { delay_ms }
            },
            SensorEvent::ControlOk => SensorAction::Continue,
            SensorEvent::ControlFailed => {
                self.status = Status::Down;
                self.count_error();
                SensorAction::Continue
            },
        }
    }

    fn count_error(&mut self)
        ensures
            *final(self) == (Manager {
                errors: if old(self).errors < u64::MAX {
                    (old(self).errors + 1) as u64
                } else {
                    old(self).errors
                },
                ..*old(self)
            }),
    {
        if self.errors < u64::MAX {
            self.errors = self.errors + 1;
        }
    }
}

/// Supervisor status law: the status leaves `Missing` only through a
/// successful bring-up, and once it has left `Missing` it never returns;
/// thereafter every event keeps it within `Up` and `Down`.
pub proof fn lemma_supervisor_status_law(m: Manager, ev: SensorEvent)
    requires
        m.wf(),
        m.accepts(ev),
    ensures
        Manager::spec_next_status(m.status, ev) == Status::Missing ==> m.status == Status::Missing,
        m.status == Status::Missing && Manager::spec_next_status(m.status, ev) != Status::Missing
            ==> ev == SensorEvent::BringUpOk,
        m.status != Status::Missing ==> Manager::spec_next_status(m.status, ev) != Status::Missing,
{
}

/// The status after a whole sequence of events.
pub open spec fn spec_status_after(s: Status, evs: Seq<SensorEvent>) -> Status
    decreases evs.len(),
{
    if evs.len() == 0 {
        s
    } else {
        spec_status_after(Manager::spec_next_status(s, evs[0]), evs.drop_first())
    }
}

/// Supervisor status law, over whole runs: once the status has left
/// `Missing`, no sequence of events whatsoever brings it back.
pub proof fn lemma_status_never_returns_to_missing(s: Status, evs: Seq<SensorEvent>)
    requires
        s != Status::Missing,
    ensures
        spec_status_after(s, evs) != Status::Missing,
    decreases evs.len(),
{
    if evs.len() > 0 {
        lemma_status_never_returns_to_missing(
            Manager::spec_next_status(s, evs[0]),
            evs.drop_first(),
        );
    }
}

/// The display name of a status in the status report.
pub open spec fn spec_status_name(s: Status) -> Seq<char> {
    match s {
        Status::Missing => "Missing"@,
        Status::Up => "Up"@,
        Status::Down => "Down"@,
    }
}

impl Status {
    /// The status's display name.
    pub fn as_str(&self) -> (r: &'static str)
        ensures
            r@ == spec_status_name(*self),
    {
        match self {
            Status::Missing => "Missing",
            Status::Up => "Up",
            Status::Down => "Down",
        }
    }
}

/// The registry of per-sensor status cells, keyed by sensor name.
pub type StatusRegistry = RegistryMap<String, StatusCell>;

/// One status report member: the sensor name against its status name.
pub open spec fn spec_status_member(name: Seq<char>, s: Status) -> Seq<char> {
    spec_json_string(name) + ":"@ + spec_json_string(spec_status_name(s))
}

/// The comma-separated members of the status report.
pub open spec fn spec_status_members(rows: Seq<(String, StatusCell)>) -> Seq<char>
    decreases rows.len(),
{
    if rows.len() == 0 {
        Seq::empty()
    } else if rows.len() == 1 {
        spec_status_member(rows[0].0@, rows[0].1@)
    } else {
        spec_status_members(rows.drop_last()) + ","@ + spec_status_member(
            rows.last().0@,
            rows.last().1@,
        )
    }
}

/// The status report: a JSON object mapping each registered sensor name to
/// `Missing`, `Up` or `Down`, in registration order.
pub open spec fn spec_status_json(rows: Seq<(String, StatusCell)>) -> Seq<char> {
    "{"@ + spec_status_members(rows) + "}"@
}

/// Render the status registry as the JSON status report.
pub fn statuses_json(reg: &StatusRegistry) -> (r: String)
    ensures
        r@ == spec_status_json(reg@),
{
    let mut out = String::new();
    out.append("{");
    let n = reg.len();
    let mut i: usize = 0;
    while i < n
        invariant
            n == reg@.len(),
            i <= n,
            out@ == "{"@ + spec_status_members(reg@.take(i as int)),
        decreases n - i,
    {
        if i > 0 {
            out.append(",");
        }
        let row = reg.get(i);
        out.append("\"");
        let name = crate::metric::escape_str(row.0.as_str());
        out.append(name.as_str());
        out.append("\"");
        out.append(":");
        out.append("\"");
        let status = row.1.status();
        out.append(status.as_str());
        out.append("\"");
        proof {
            let rows = reg@;
            lemma_status_name_needs_no_escape(row.1@);
            assert(rows.take(i + 1).drop_last() =~= rows.take(i as int));
            assert(rows.take(i + 1).last() == rows[i as int]);
            assert(out@ =~= "{"@ + spec_status_members(rows.take(i + 1)));
        }
        i += 1;
    }
    proof {
        assert(reg@.take(n as int) =~= reg@);
    }
    out.append("}");
    out
}

/// A status name contains no character that JSON embedding would escape.
proof fn lemma_status_name_needs_no_escape(s: Status)
    ensures
        spec_escaped(spec_status_name(s)) == spec_status_name(s),
{
    reveal_strlit("Missing");
    reveal_strlit("Up");
    reveal_strlit("Down");
    match s {
        Status::Missing => {
            assert(spec_escaped("Missing"@) =~= "Missing"@) by {
                lemma_escape_keeps_plain_text("Missing"@);
            }
        },
        Status::Up => {
            assert(spec_escaped("Up"@) =~= "Up"@) by {
                lemma_escape_keeps_plain_text("Up"@);
            }
        },
        Status::Down => {
            assert(spec_escaped("Down"@) =~= "Down"@) by {
                lemma_escape_keeps_plain_text("Down"@);
            }
        },
    }
}

/// Escaping changes nothing in text free of quotes and backslashes.
proof fn lemma_escape_keeps_plain_text(s: Seq<char>)
    requires
        forall|i: int| 0 <= i < s.len() ==> s[i] != '"' && s[i] != '\\',
    ensures
        spec_escaped(s) =~= s,
    decreases s.len(),
{
    if s.len() > 0 {
        lemma_escape_keeps_plain_text(s.drop_last());
    }
}

} // verus!
