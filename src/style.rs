//! Terminal emphasis for reported numbers.
use owo_colors::OwoColorize;
use vstd::prelude::*;

verus! {

/// The character of a decimal digit.
pub open spec fn digit_char(d: nat) -> char {
    if d == 0 { '0' }
    else if d == 1 { '1' }
    else if d == 2 { '2' }
    else if d == 3 { '3' }
    else if d == 4 { '4' }
    else if d == 5 { '5' }
    else if d == 6 { '6' }
    else if d == 7 { '7' }
    else if d == 8 { '8' }
    else { '9' }
}

/// The decimal digits of `n`, most significant first, without leading zeros.
pub open spec fn decimal_of(n: nat) -> Seq<char>
    decreases n,
{
    if n < 10 {
        seq![digit_char(n)]
    } else {
        decimal_of(n / 10).push(digit_char(n % 10))
    }
}

/// `s` between the ANSI escapes that switch bold on and reset it.
pub open spec fn with_bold(s: Seq<char>) -> Seq<char> {
    seq!['\u{1b}', '[', '1', 'm'] + s + seq!['\u{1b}', '[', '0', 'm']
}

/// Relies on `Display` for `u64` (via `ToString`): the decimal digits of the value.
#[verifier::external_body]
fn decimal_text(n: u64) -> (r: String)
    ensures
        r@ == decimal_of(n as nat),
{
    n.to_string()
}

/// Relies on owo_colors' `OwoColorize::bold`, whose `Display` writes `"\x1b[1m"`,
/// the text, and `"\x1b[0m"`.
#[verifier::external_body]
pub(crate) fn bold(s: &str) -> (r: String)
    ensures
        r@ == with_bold(s@),
{
    s.bold().to_string()
}

/// A count as decimal text, in bold when it is above zero.
pub fn bold_if_greater_than_zero(input: u64) -> (r: String)
    ensures
        input > 0 ==> r@ == with_bold(decimal_of(input as nat)),
        input == 0 ==> r@ == decimal_of(0),
{
    let digits = decimal_text(input);
    if input > 0 {
        bold(digits.as_str())
    } else {
        digits
    }
}

} // verus!
