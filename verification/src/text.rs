//! Building text: single characters and decimal numbers.

use vstd::prelude::*;

verus! {

/// The decimal digit for `value`, which is below ten.
pub open spec fn digit(value: nat) -> char {
    ((48 + value) as u8) as char
}

/// The decimal numeral of `n`, without leading zeros.
pub open spec fn decimal(n: nat) -> Seq<char>
    decreases n,
{
    if n < 10 {
        seq![digit(n)]
    } else {
        decimal(n / 10).push(digit(n % 10))
    }
}

/// `String::push` of std: `c` is added at the end of `text`.
#[verifier::external_body]
pub(crate) fn push_char(text: &mut String, c: char)
    ensures
        final(text)@ == old(text)@.push(c),
{
    text.push(c)
}

/// Adds the decimal numeral of `n` at the end of `text`.
pub fn push_decimal(text: &mut String, n: u64)
    ensures
        final(text)@ == old(text)@ + decimal(n as nat),
    decreases n,
{
    if n >= 10 {
        push_decimal(text, n / 10);
    }
    let low: u8 = (n % 10) as u8;
    push_char(text, (48u8 + low) as char);
    proof {
        if n >= 10 {
            assert(old(text)@ + decimal(n as nat) =~= (old(text)@ + decimal((n / 10) as nat)).push(
                digit((n % 10) as nat),
            ));
        } else {
            assert(old(text)@ + decimal(n as nat) =~= old(text)@.push(digit(n as nat)));
        }
    }
}

} // verus!
