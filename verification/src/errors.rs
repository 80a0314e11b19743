//! The error reported by the build operations of
//! [`ArrayBuilder`](crate::builder::ArrayBuilder), together with its
//! human-readable rendering.

use vstd::prelude::*;
use vstd::string::StringExecFns;

verus! {

/// The character of the decimal digit `n`, for `n < 10`.
pub open spec fn digit_char(n: nat) -> char {
    if n == 0 {
        '0'
    } else if n == 1 {
        '1'
    } else if n == 2 {
        '2'
    } else if n == 3 {
        '3'
    } else if n == 4 {
        '4'
    } else if n == 5 {
        '5'
    } else if n == 6 {
        '6'
    } else if n == 7 {
        '7'
    } else if n == 8 {
        '8'
    } else {
        '9'
    }
}

/// The characters of `n` written in decimal: most significant digit first,
/// no leading zeros (a single `0` for zero itself).
pub open spec fn decimal_chars(n: nat) -> Seq<char>
    decreases n,
{
    if n < 10 {
        seq![digit_char(n)]
    } else {
        decimal_chars(n / 10).push(digit_char(n % 10))
    }
}

/// The one-character string of the decimal digit `d`.
fn digit_str(d: usize) -> (r: &'static str)
    requires
        d < 10,
    ensures
        r@ == seq![digit_char(d as nat)],
{
    let r: &'static str = if d == 0 {
        "0"
    } else if d == 1 {
        "1"
    } else if d == 2 {
        "2"
    } else if d == 3 {
        "3"
    } else if d == 4 {
        "4"
    } else if d == 5 {
        "5"
    } else if d == 6 {
        "6"
    } else if d == 7 {
        "7"
    } else if d == 8 {
        "8"
    } else {
        "9"
    };
    proof {
        reveal_strlit("0");
        reveal_strlit("1");
        reveal_strlit("2");
        reveal_strlit("3");
        reveal_strlit("4");
        reveal_strlit("5");
        reveal_strlit("6");
        reveal_strlit("7");
        reveal_strlit("8");
        reveal_strlit("9");
        assert(r@ =~= seq![digit_char(d as nat)]);
    }
    r
}

/// Append the decimal digits of `n`, most significant first, to `out`.
fn push_decimal(n: usize, out: &mut String)
    ensures
        final(out)@ == old(out)@ + decimal_chars(n as nat),
    decreases n,
{
    if n >= 10 {
        push_decimal(n / 10, out);
    }
    out.append(digit_str(n % 10));
    proof {
        assert(final(out)@ =~= old(out)@ + decimal_chars(n as nat));
    }
}

/// Render `n` in decimal.
fn decimal_string(n: usize) -> (r: String)
    ensures
        r@ == decimal_chars(n as nat),
{
    let mut out = String::new();
    push_decimal(n, &mut out);
    proof {
        assert(out@ =~= decimal_chars(n as nat));
    }
    out
}

/// Error returned when a build operation finds a mismatch between the
/// expected and the actual number of pushes.
#[derive(Debug, Clone)]
pub struct Error {
    /// The capacity `N` the build operation had to fill.
    pub expected: usize,
    /// The total number of pushes that were attempted: the stored items plus
    /// the excess pushes that were discarded.
    pub actual: usize,
}

impl Error {
    /// The human-readable description of the mismatch: direction-aware, with
    /// "few" when fewer pushes arrived than expected and "many" otherwise.
    pub open spec fn spec_message(self) -> Seq<char> {
        "too "@ + (if self.actual < self.expected {
            "few"@
        } else {
            "many"@
        }) + " elements for array, needed "@ + decimal_chars(self.expected as nat)
            + " but got "@ + decimal_chars(self.actual as nat)
    }

    /// Describe the mismatch, distinguishing "too few" from "too many" by
    /// comparing the actual count to the expected one.
    pub fn message(&self) -> (r: String)
        ensures
            r@ == self.spec_message(),
    {
        let mut r = String::from_str("too ");
        if self.actual < self.expected {
            r.append("few");
        } else {
            r.append("many");
        }
        r.append(" elements for array, needed ");
        let expected = decimal_string(self.expected);
        r.append(expected.as_str());
        r.append(" but got ");
        let actual = decimal_string(self.actual);
        r.append(actual.as_str());
        proof {
            assert(r@ =~= self.spec_message());
        }
        r
    }
}

} // verus!
