//! Texts: the form under which property names are compared, and numbers in
//! decimal digits.
//!
//! The standard library trims and lowers the text of a name. The verifier
//! has no specification for either operation, so the result of each has a
//! name here, and nothing is claimed of it but that it depends on the
//! characters of the text alone.

use vstd::prelude::*;

verus! {

/// What `str::trim` returns for the text `s`: `s` without its leading and
/// trailing white space.
pub uninterp spec fn trimmed(s: Seq<char>) -> Seq<char>;

/// What `str::to_lowercase` returns for the text `s`: the lower-case
/// equivalent of `s`.
pub uninterp spec fn lowercased(s: Seq<char>) -> Seq<char>;

/// `str::trim`: the slice that is left when leading and trailing white
/// space is removed. The result depends on the characters of `s` alone.
pub assume_specification[ str::trim ](s: &str) -> (r: &str)
    ensures
        r@ == trimmed(s@),
;

/// `str::to_lowercase`: a new string with the lower-case equivalent of
/// `s`. The result depends on the characters of `s` alone.
pub assume_specification[ str::to_lowercase ](s: &str) -> (r: String)
    ensures
        r@ == lowercased(s@),
;

/// The form under which property names are compared: trimmed, then in lower
/// case.
pub open spec fn folded(s: Seq<char>) -> Seq<char> {
    lowercased(trimmed(s))
}

/// The folded form of `s`.
pub fn fold(s: &str) -> (r: String)
    ensures
        r@ == folded(s@),
{
    s.trim().to_lowercase()
}

/// The character of the decimal digit `d`.
pub open spec fn digit_char(d: int) -> char
    recommends
        0 <= d <= 9,
{
    ('0' as int + d) as char
}

/// The decimal digits of `n`, without leading zeros.
pub open spec fn decimal(n: nat) -> Seq<char>
    decreases n,
{
    if n < 10 {
        seq![digit_char(n as int)]
    } else {
        decimal(n / 10).push(digit_char((n % 10) as int))
    }
}

/// The decimal digits of `n`, with zeros in front up to `width` digits.
pub open spec fn zero_padded(n: nat, width: nat) -> Seq<char> {
    let digits = decimal(n);
    if digits.len() >= width {
        digits
    } else {
        Seq::new((width - digits.len()) as nat, |i: int| '0') + digits
    }
}

} // verus!
