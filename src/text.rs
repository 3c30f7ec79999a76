//! The lines a benchmark prints, built from its name, messages and readings.

use vstd::prelude::*;
use crate::units::Unit;

verus! {

/// The decimal digits of `n`, most significant first, with no leading zero.
pub open spec fn decimal(n: nat) -> Seq<char>
    decreases n,
{
    if n < 10 {
        seq![digit(n)]
    } else {
        decimal(n / 10).push(digit(n % 10))
    }
}

/// The character of a single decimal digit.
pub open spec fn digit(d: nat) -> char {
    if d == 0 { '0' }
    else if d == 1 { '1' }
    else if d == 2 { '2' }
    else if d == 3 { '3' }
    else if d == 4 { '4' }
    else if d == 5 { '5' }
    else if d == 6 { '6' }
    else if d == 7 { '7' }
    else if d == 8 { '8' }
    else { '9' }
}

/// The text of a single decimal digit.
fn digit_text(d: u128) -> (r: &'static str)
    requires
        d < 10,
    ensures
        r@ == seq![digit(d as nat)],
{
    proof {
        reveal_strlit("0");
        reveal_strlit("1");
        reveal_strlit("2");
        reveal_strlit("3");
        reveal_strlit("4");
        reveal_strlit("5");
        reveal_strlit("6");
        reveal_strlit("7");
        reveal_strlit("8");
        reveal_strlit("9");
    }
    if d == 0 { "0" }
    else if d == 1 { "1" }
    else if d == 2 { "2" }
    else if d == 3 { "3" }
    else if d == 4 { "4" }
    else if d == 5 { "5" }
    else if d == 6 { "6" }
    else if d == 7 { "7" }
    else if d == 8 { "8" }
    else { "9" }
}

/// Writes `n` in decimal.
pub fn decimal_text(n: u128) -> (r: String)
    ensures
        r@ == decimal(n as nat),
    decreases n,
{
    if n < 10 {
        String::from_str(digit_text(n))
    } else {
        let mut s = decimal_text(n / 10);
        s.append(digit_text(n % 10));
        s
    }
}

/// The line announcing a benchmark: `running <name>...`.
pub open spec fn running_line(name: Seq<char>) -> Seq<char> {
    "running "@ + name + "..."@
}

/// The line of a reading: `(<name>) <message> -> <value> <unit> `, with the
/// name in bold green, the message in bold and the value in bold magenta.
pub open spec fn reading_line(name: Seq<char>, msg: Seq<char>, value: nat, unit: Unit) -> Seq<char> {
    "(\x1b[32m\x1b[1m"@ + name + "\x1b[0m) \x1b[1m"@ + msg + " \x1b[0m-> \x1b[35m\x1b[1m"@
        + decimal(value) + " "@ + unit.label_spec() + " \x1b[0m"@
}

/// The closing line: `<name> finished in <v0> <u0> (<v1> <u1>)`, with the
/// first part in bold green and the coarse reading in bold magenta.
pub open spec fn finished_line(
    name: Seq<char>,
    coarse: nat,
    coarse_unit: Unit,
    fine: nat,
    fine_unit: Unit,
) -> Seq<char> {
    "\x1b[32m\x1b[1m"@ + name + " finished\x1b[0m in \x1b[35m\x1b[1m"@ + decimal(coarse) + " "@
        + coarse_unit.label_spec() + " \x1b[0m("@ + decimal(fine) + " "@ + fine_unit.label_spec()
        + ")"@
}

/// Builds the line announcing a benchmark.
pub fn running_text(name: &str) -> (r: String)
    ensures
        r@ == running_line(name@),
{
    let mut s = String::from_str("running ");
    s.append(name);
    s.append("...");
    s
}

/// Builds the line of a reading of `value` in `unit`.
pub fn reading_text(name: &str, msg: &str, value: u128, unit: Unit) -> (r: String)
    ensures
        r@ == reading_line(name@, msg@, value as nat, unit),
{
    let mut s = String::from_str("(\x1b[32m\x1b[1m");
    s.append(name);
    s.append("\x1b[0m) \x1b[1m");
    s.append(msg);
    s.append(" \x1b[0m-> \x1b[35m\x1b[1m");
    let v = decimal_text(value);
    s.append(v.as_str());
    s.append(" ");
    s.append(unit.label());
    s.append(" \x1b[0m");
    s
}

/// Builds the closing line of a benchmark.
pub fn finished_text(name: &str, coarse: u128, coarse_unit: Unit, fine: u128, fine_unit: Unit) -> (r: String)
    ensures
        r@ == finished_line(name@, coarse as nat, coarse_unit, fine as nat, fine_unit),
{
    let mut s = String::from_str("\x1b[32m\x1b[1m");
    s.append(name);
    s.append(" finished\x1b[0m in \x1b[35m\x1b[1m");
    let c = decimal_text(coarse);
    s.append(c.as_str());
    s.append(" ");
    s.append(coarse_unit.label());
    s.append(" \x1b[0m(");
    let f = decimal_text(fine);
    s.append(f.as_str());
    s.append(" ");
    s.append(fine_unit.label());
    s.append(")");
    s
}

} // verus!
