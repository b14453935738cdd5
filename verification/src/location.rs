//! Source positions attached to every error value.

use vstd::prelude::*;
use vstd::string::StringExecFns;

verus! {

/// A position in the source text, identified by one-based row and column.
#[derive(Clone, Copy, PartialEq, Eq, Structural, Debug)]
pub struct Location {
    pub row: usize,
    pub column: usize,
}

/// The digit character for a value below ten.
pub open spec fn decimal_digit(d: nat) -> char {
    if d == 0 {
        '0'
    } else if d == 1 {
        '1'
    } else if d == 2 {
        '2'
    } else if d == 3 {
        '3'
    } else if d == 4 {
        '4'
    } else if d == 5 {
        '5'
    } else if d == 6 {
        '6'
    } else if d == 7 {
        '7'
    } else if d == 8 {
        '8'
    } else {
        '9'
    }
}

/// The usual decimal rendering of a natural number, most significant digit
/// first, with no leading zeros except for zero itself.
pub open spec fn decimal_of(n: nat) -> Seq<char>
    decreases n,
{
    if n < 10 {
        seq![decimal_digit(n)]
    } else {
        decimal_of(n / 10) + seq![decimal_digit(n % 10)]
    }
}

/// Appends the digit character for `d` to `s`.
fn push_digit(s: &mut String, d: usize)
    requires
        d < 10,
    ensures
        final(s)@ == old(s)@ + seq![decimal_digit(d as nat)],
{
    proof {
        reveal_strlit("0");
        reveal_strlit("1");
        reveal_strlit("2");
        reveal_strlit("3");
        reveal_strlit("4");
        reveal_strlit("5");
        reveal_strlit("6");
        reveal_strlit("7");
        reveal_strlit("8");
        reveal_strlit("9");
    }
    match d {
        0 => s.append("0"),
        1 => s.append("1"),
        2 => s.append("2"),
        3 => s.append("3"),
        4 => s.append("4"),
        5 => s.append("5"),
        6 => s.append("6"),
        7 => s.append("7"),
        8 => s.append("8"),
        _ => s.append("9"),
    }
}

/// Renders `n` in decimal.
pub fn decimal_string(n: usize) -> (r: String)
    ensures
        r@ == decimal_of(n as nat),
    decreases n,
{
    if n < 10 {
        let mut s = String::new();
        push_digit(&mut s, n);
        assert(s@ =~= decimal_of(n as nat));
        s
    } else {
        let mut s = decimal_string(n / 10);
        push_digit(&mut s, n % 10);
        assert(s@ =~= decimal_of(n as nat));
        s
    }
}

/// The text a location renders as, used directly after "at".
pub open spec fn location_text(loc: Location) -> Seq<char> {
    "line "@ + decimal_of(loc.row as nat) + " column "@ + decimal_of(loc.column as nat)
}

impl Location {
    /// Creates a location from its row and column.
    pub fn new(row: usize, column: usize) -> (r: Location)
        ensures
            r == (Location { row, column }),
    {
        Location { row, column }
    }

    /// Renders the location as "line {row} column {column}".
    pub fn text(&self) -> (r: String)
        ensures
            r@ == location_text(*self),
    {
        let mut s = String::from_str("line ");
        s.append(decimal_string(self.row).as_str());
        s.append(" column ");
        s.append(decimal_string(self.column).as_str());
        assert(s@ =~= location_text(*self));
        s
    }
}

} // verus!
