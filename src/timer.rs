//! The benchmark handle: a name, the instant it started, and a checkpoint.
//!
//! Every time is kept as the nanoseconds since the start, so the checkpoint
//! can never lie before the start. Each operation that reads the clock has a
//! twin ending in `_at` that takes the reading instead and is exact.

use vstd::prelude::*;
use std::time::Instant;
use crate::clock::{nanos_between, now};
use crate::text::{finished_line, finished_text, reading_line, reading_text, running_line, running_text};
use crate::units::{
    get_unit_of_measurement, get_units_of_measurement, in_unit, nanos_to_unit_of_msr,
    nanos_to_units_of_msr, unit_for, Unit,
};

verus! {

/// A running benchmark.
#[derive(Clone, PartialEq, Eq, PartialOrd, Ord, Hash, Debug)]
pub struct TimeElapsed {
    name: String,
    start_timestamp: Instant,
    last_timestamp: u128,
}

/// What a log call measured and the line it makes.
pub struct Reading {
    /// Nanoseconds since the start when the clock was read.
    pub at: u128,
    /// The measured duration in nanoseconds.
    pub nanos: u128,
    /// The duration in `unit`, truncated.
    pub value: u128,
    /// The unit chosen for the duration.
    pub unit: Unit,
    /// The line to print.
    pub line: String,
}

/// What the end of a benchmark measured and the line it makes.
pub struct Summary {
    /// The total duration in nanoseconds.
    pub nanos: u128,
    /// The total in the coarse unit and in the next finer one, truncated.
    pub values: [u128; 2],
    /// The coarse unit and the next finer one.
    pub units: [Unit; 2],
    /// The line to print.
    pub line: String,
}

/// The nanoseconds from `reference` to `at`, or zero if `at` comes first.
pub open spec fn elapsed_from(reference: nat, at: nat) -> nat {
    if at >= reference {
        (at - reference) as nat
    } else {
        0
    }
}

/// `r` reports a duration of `nanos` read at `at`, for the benchmark `name`
/// and the message `msg`.
pub open spec fn reports(r: Reading, name: Seq<char>, msg: Seq<char>, at: nat, nanos: nat) -> bool {
    &&& r.at as nat == at
    &&& r.nanos as nat == nanos
    &&& r.unit == unit_for(nanos)
    &&& r.value as nat == in_unit(nanos, r.unit)
    &&& r.line@ == reading_line(name, msg, r.value as nat, r.unit)
}

/// `s` sums up a benchmark `name` that lasted `nanos`.
pub open spec fn sums_up(s: Summary, name: Seq<char>, nanos: nat) -> bool {
    &&& s.nanos as nat == nanos
    &&& s.units@ == seq![unit_for(nanos), unit_for(nanos).finer_spec()]
    &&& s.values@[0] as nat == in_unit(nanos, s.units@[0])
    &&& s.values@[1] as nat == in_unit(nanos, s.units@[1])
    &&& s.line@ == finished_line(name, s.values@[0] as nat, s.units@[0], s.values@[1] as nat, s.units@[1])
}

/// Starts a benchmark named `name`, with its checkpoint at the start.
pub fn start(name: &str) -> (r: TimeElapsed)
    ensures
        r.name_spec() == name@,
        r.checkpoint() == 0,
{
    TimeElapsed::new(name)
}

impl TimeElapsed {
    /// The name of the benchmark.
    pub closed spec fn name_spec(&self) -> Seq<char> {
        self.name@
    }

    /// The instant the benchmark started.
    pub closed spec fn started(&self) -> Instant {
        self.start_timestamp
    }

    /// The checkpoint, in nanoseconds since the start.
    pub closed spec fn checkpoint(&self) -> nat {
        self.last_timestamp as nat
    }

    fn new(name: &str) -> (r: TimeElapsed)
        ensures
            r.name_spec() == name@,
            r.checkpoint() == 0,
    {
        TimeElapsed { name: String::from_str(name), start_timestamp: now(), last_timestamp: 0 }
    }

    /// The name of the benchmark.
    pub fn name(&self) -> (r: &str)
        ensures
            r@ == self.name_spec(),
    {
        self.name.as_str()
    }

    /// The checkpoint, in nanoseconds since the start.
    pub fn checkpoint_nanos(&self) -> (r: u128)
        ensures
            r as nat == self.checkpoint(),
    {
        self.last_timestamp
    }

    /// The line announcing the benchmark: `running <name>...`.
    pub fn running_line(&self) -> (r: String)
        ensures
            r@ == running_line(self.name_spec()),
    {
        running_text(self.name.as_str())
    }

    /// Reads the clock, in nanoseconds since the start.
    fn since_start(&self) -> (r: (Instant, u128)) {
        let t = now();
        let n = nanos_between(&t, &self.start_timestamp);
        (t, n)
    }

    /// Measures the time from the checkpoint to `at` (nanoseconds since the
    /// start) and makes the line reporting it. The checkpoint stays.
    pub fn log_at(&self, msg: &str, at: u128) -> (r: Reading)
        ensures
            reports(r, self.name_spec(), msg@, at as nat, elapsed_from(self.checkpoint(), at as nat)),
    {
        let nanos = if at >= self.last_timestamp { at - self.last_timestamp } else { 0 };
        self.reading(msg, at, nanos)
    }

    /// Measures the time from the checkpoint to now and makes the line
    /// reporting it. The checkpoint stays.
    pub fn log(&self, msg: &str) -> (r: Reading)
        ensures
            reports(r, self.name_spec(), msg@, r.at as nat, elapsed_from(self.checkpoint(), r.at as nat)),
    {
        let (_t, at) = self.since_start();
        self.log_at(msg, at)
    }

    /// Measures the time from the start to `at` (nanoseconds since the start),
    /// ignoring the checkpoint, and makes the line reporting it.
    pub fn log_overall_at(&self, msg: &str, at: u128) -> (r: Reading)
        ensures
            reports(r, self.name_spec(), msg@, at as nat, elapsed_from(0, at as nat)),
    {
        self.reading(msg, at, at)
    }

    /// Measures the time from the start to now, ignoring the checkpoint, and
    /// makes the line reporting it.
    pub fn log_overall(&self, msg: &str) -> (r: Reading)
        ensures
            reports(r, self.name_spec(), msg@, r.at as nat, elapsed_from(0, r.at as nat)),
    {
        let (_t, at) = self.since_start();
        self.log_overall_at(msg, at)
    }

    fn reading(&self, msg: &str, at: u128, nanos: u128) -> (r: Reading)
        ensures
            reports(r, self.name_spec(), msg@, at as nat, nanos as nat),
    {
        let unit = get_unit_of_measurement(nanos);
        let value = nanos_to_unit_of_msr(nanos, unit);
        let line = reading_text(self.name.as_str(), msg, value, unit);
        Reading { at, nanos, value, unit, line }
    }

    /// Moves the checkpoint to `at`, in nanoseconds since the start.
    pub fn timestamp_at(&mut self, at: u128)
        ensures
            final(self).name_spec() == old(self).name_spec(),
            final(self).started() == old(self).started(),
            final(self).checkpoint() == at as nat,
    {
        self.last_timestamp = at;
    }

    /// Moves the checkpoint to now. Returns the instant read and the same
    /// reading in nanoseconds since the start, which is the new checkpoint.
    pub fn timestamp(&mut self) -> (r: (Instant, u128))
        ensures
            final(self).name_spec() == old(self).name_spec(),
            final(self).started() == old(self).started(),
            final(self).checkpoint() == r.1 as nat,
    {
        let (t, at) = self.since_start();
        self.timestamp_at(at);
        (t, at)
    }

    /// Ends the benchmark at `at` (nanoseconds since the start) and sums up
    /// the whole run in a unit and the next finer one.
    pub fn end_at(self, at: u128) -> (r: Summary)
        ensures
            sums_up(r, self.name_spec(), at as nat),
    {
        let units = get_units_of_measurement(at);
        let values = nanos_to_units_of_msr(at, units[0]);
        let line = finished_text(self.name.as_str(), values[0], units[0], values[1], units[1]);
        Summary { nanos: at, values, units, line }
    }

    /// Ends the benchmark now and sums up the whole run.
    pub fn end(self) -> (r: Summary)
        ensures
            sums_up(r, self.name_spec(), r.nanos as nat),
    {
        let (_t, at) = self.since_start();
        self.end_at(at)
    }
}

/// Two log calls on a handle, with no checkpoint between them, both measure
/// from the same checkpoint: once the clock has passed it, each reports the
/// time since it, and the later reading never reports less.
pub proof fn log_twice_same_reference(t: TimeElapsed, first: nat, second: nat)
    requires
        t.checkpoint() <= first <= second,
    ensures
        elapsed_from(t.checkpoint(), first) == first - t.checkpoint(),
        elapsed_from(t.checkpoint(), second) == second - t.checkpoint(),
        elapsed_from(t.checkpoint(), first) <= elapsed_from(t.checkpoint(), second),
{
}

/// Once the checkpoint is at `c` (as `timestamp_at(c)` leaves it, or
/// `timestamp` at the reading it returns), a log at `c` reports zero and a log
/// at any later reading `a` reports exactly `a - c`.
pub proof fn checkpoint_resets_reference(t: TimeElapsed, c: nat, a: nat)
    requires
        t.checkpoint() == c,
        c <= a,
    ensures
        elapsed_from(t.checkpoint(), c) == 0,
        elapsed_from(t.checkpoint(), a) == a - c,
{
}

/// A log does not move the checkpoint, so a second log with no timestamp
/// between also covers the interval the first one measured: it reports the
/// first duration plus the time between the two readings. When that total
/// lies from 4 ms up to 15 s it is shown in whole milliseconds.
pub proof fn second_log_accumulates(t: TimeElapsed, first: nat, second: nat)
    requires
        t.checkpoint() <= first <= second,
    ensures
        elapsed_from(t.checkpoint(), second) == elapsed_from(t.checkpoint(), first) + (second - first),
        4_000_000 <= elapsed_from(t.checkpoint(), second) < 15_000_000_000 ==> {
            &&& unit_for(elapsed_from(t.checkpoint(), second)) == Unit::Milliseconds
            &&& in_unit(elapsed_from(t.checkpoint(), second), Unit::Milliseconds)
                == elapsed_from(t.checkpoint(), second) / 1_000_000
        },
{
}

/// At any one reading, the time since the start is at least the time since
/// the checkpoint.
pub proof fn overall_at_least_since_checkpoint(t: TimeElapsed, at: nat)
    ensures
        elapsed_from(0, at) >= elapsed_from(t.checkpoint(), at),
{
}

} // verus!
