//! Display units for durations, and the rules that pick and apply them.

use vstd::prelude::*;

verus! {

/// A unit in which a duration is shown.
#[derive(PartialEq, Eq, Structural, Clone, Copy, Debug)]
pub enum Unit {
    Nanoseconds,
    Microseconds,
    Milliseconds,
    Seconds,
    Minutes,
    Hours,
}

impl Unit {
    /// How many nanoseconds one of this unit holds.
    pub open spec fn factor(self) -> nat {
        match self {
            Unit::Nanoseconds => 1,
            Unit::Microseconds => 1_000,
            Unit::Milliseconds => 1_000_000,
            Unit::Seconds => 1_000_000_000,
            Unit::Minutes => 60_000_000_000,
            Unit::Hours => 3_600_000_000_000,
        }
    }

    /// The next finer unit; nanoseconds are their own finer unit.
    pub open spec fn finer_spec(self) -> Unit {
        match self {
            Unit::Nanoseconds => Unit::Nanoseconds,
            Unit::Microseconds => Unit::Nanoseconds,
            Unit::Milliseconds => Unit::Microseconds,
            Unit::Seconds => Unit::Milliseconds,
            Unit::Minutes => Unit::Seconds,
            Unit::Hours => Unit::Minutes,
        }
    }

    /// The short label printed after a value in this unit.
    pub open spec fn label_spec(self) -> Seq<char> {
        match self {
            Unit::Nanoseconds => seq!['n', 's'],
            Unit::Microseconds => seq!['μ', 's'],
            Unit::Milliseconds => seq!['m', 's'],
            Unit::Seconds => seq!['s'],
            Unit::Minutes => seq!['m', 'i', 'n'],
            Unit::Hours => seq!['h', 'r', 's'],
        }
    }

    /// Nanoseconds per unit.
    pub fn nanos_per_unit(&self) -> (r: u128)
        ensures
            r as nat == self.factor(),
    {
        match self {
            Unit::Nanoseconds => 1,
            Unit::Microseconds => 1_000,
            Unit::Milliseconds => 1_000_000,
            Unit::Seconds => 1_000_000_000,
            Unit::Minutes => 60_000_000_000,
            Unit::Hours => 3_600_000_000_000,
        }
    }

    /// The next finer unit.
    pub fn finer(&self) -> (r: Unit)
        ensures
            r == self.finer_spec(),
    {
        match self {
            Unit::Nanoseconds => Unit::Nanoseconds,
            Unit::Microseconds => Unit::Nanoseconds,
            Unit::Milliseconds => Unit::Microseconds,
            Unit::Seconds => Unit::Milliseconds,
            Unit::Minutes => Unit::Seconds,
            Unit::Hours => Unit::Minutes,
        }
    }

    /// The label of the unit, as printed.
    pub fn label(&self) -> (r: &'static str)
        ensures
            r@ == self.label_spec(),
    {
        let r = match self {
            Unit::Nanoseconds => "ns",
            Unit::Microseconds => "μs",
            Unit::Milliseconds => "ms",
            Unit::Seconds => "s",
            Unit::Minutes => "min",
            Unit::Hours => "hrs",
        };
        proof {
            reveal_strlit("ns");
            reveal_strlit("μs");
            reveal_strlit("ms");
            reveal_strlit("s");
            reveal_strlit("min");
            reveal_strlit("hrs");
        }
        r
    }
}

/// The unit a duration of `nanos` nanoseconds is shown in. The thresholds are
/// irregular on purpose: below 4 ms microseconds, below 15 s milliseconds,
/// below 300 s seconds, below 540 s minutes, hours from there on.
pub open spec fn unit_for(nanos: nat) -> Unit {
    if nanos < 4_000_000 {
        Unit::Microseconds
    } else if nanos < 15_000_000_000 {
        Unit::Milliseconds
    } else if nanos < 300_000_000_000 {
        Unit::Seconds
    } else if nanos < 540_000_000_000 {
        Unit::Minutes
    } else {
        Unit::Hours
    }
}

/// `nanos` in `unit`, truncated.
pub open spec fn in_unit(nanos: nat, unit: Unit) -> nat {
    nanos / unit.factor()
}

/// Picks the unit for a duration of `nanos` nanoseconds.
pub fn get_unit_of_measurement(nanos: u128) -> (r: Unit)
    ensures
        r == unit_for(nanos as nat),
{
    if nanos / 4_000_000 == 0 {
        Unit::Microseconds
    } else if nanos / 15_000_000_000 == 0 {
        Unit::Milliseconds
    } else if nanos / 300_000_000_000 == 0 {
        Unit::Seconds
    } else if nanos / 540_000_000_000 == 0 {
        Unit::Minutes
    } else {
        Unit::Hours
    }
}

/// Picks the unit for a duration and the next finer one, coarse first.
pub fn get_units_of_measurement(nanos: u128) -> (r: [Unit; 2])
    ensures
        r@ == seq![unit_for(nanos as nat), unit_for(nanos as nat).finer_spec()],
{
    let coarse = get_unit_of_measurement(nanos);
    let r = [coarse, coarse.finer()];
    assert(r@ =~= seq![unit_for(nanos as nat), unit_for(nanos as nat).finer_spec()]);
    r
}

/// Converts `nanos` into `unit`, dropping the remainder.
pub fn nanos_to_unit_of_msr(nanos: u128, unit: Unit) -> (r: u128)
    ensures
        r as nat == in_unit(nanos as nat, unit),
{
    nanos / unit.nanos_per_unit()
}

/// Converts `nanos` into `unit` and into the next finer unit, each dropping
/// its remainder.
pub fn nanos_to_units_of_msr(nanos: u128, unit: Unit) -> (r: [u128; 2])
    ensures
        r@[0] as nat == in_unit(nanos as nat, unit),
        r@[1] as nat == in_unit(nanos as nat, unit.finer_spec()),
{
    let r = [nanos_to_unit_of_msr(nanos, unit), nanos_to_unit_of_msr(nanos, unit.finer())];
    r
}

} // verus!
