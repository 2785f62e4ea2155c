//! Reading a headcount from the text of a chat reply.
use vstd::prelude::*;

verus! {

/// The value of a string of decimal digits.
pub open spec fn digits_value(s: Seq<char>) -> int
    decreases s.len(),
{
    if s.len() == 0 {
        0
    } else {
        digits_value(s.drop_last()) * 10 + (s.last() as int - '0' as int)
    }
}

/// A non-empty string of decimal digits.
pub open spec fn is_digits(s: Seq<char>) -> bool {
    s.len() > 0 && forall|i: int| 0 <= i < s.len() ==> '0' <= #[trigger] s[i] && s[i] <= '9'
}

/// The `usize` written in `s`: an optional `+` followed by decimal digits whose value
/// fits in a `usize`.
pub open spec fn usize_text(s: Seq<char>) -> Option<usize> {
    let d = if s.len() > 0 && s[0] == '+' {
        s.drop_first()
    } else {
        s
    };
    if is_digits(d) && digits_value(d) <= usize::MAX {
        Some(digits_value(d) as usize)
    } else {
        None
    }
}

/// Relies on `str::parse::<usize>` (`FromStr` for `usize`): it accepts exactly an
/// optional `+` followed by decimal digits whose value fits, and returns that value.
#[verifier::external_body]
fn parse_usize(s: &str) -> (r: Option<usize>)
    ensures
        r == usize_text(s@),
{
    s.parse::<usize>().ok()
}

/// The headcount written in a reply: a positive integer, or `None`.
pub fn parse_count(s: &str) -> (r: Option<usize>)
    ensures
        r == match usize_text(s@) {
            Some(v) => if v >= 1 { Some(v) } else { None },
            None => None,
        },
{
    match parse_usize(s) {
        Some(v) => if v >= 1 {
            Some(v)
        } else {
            None
        },
        None => None,
    }
}

} // verus!
