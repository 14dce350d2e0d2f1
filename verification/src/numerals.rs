//! Decimal and lowercase hexadecimal text of unsigned integers, as the
//! `{}` and `{:x}` formats print them: no sign, no leading zeros.

use vstd::prelude::*;
use crate::encoding::{hex_char, hex_digit};
use crate::text::push_char;

verus! {

/// The decimal digits of `n`.
pub open spec fn decimal_text(n: nat) -> Seq<char>
    decreases n,
{
    if n < 10 {
        seq![hex_digit(n as u8)]
    } else {
        decimal_text(n / 10).push(hex_digit((n % 10) as u8))
    }
}

/// The lowercase hexadecimal digits of `n`.
pub open spec fn hex_text(n: nat) -> Seq<char>
    decreases n,
{
    if n < 16 {
        seq![hex_digit(n as u8)]
    } else {
        hex_text(n / 16).push(hex_digit((n % 16) as u8))
    }
}

/// Appends the decimal digits of `n` to `out`.
pub fn push_decimal(out: &mut String, n: u64)
    ensures
        final(out)@ == old(out)@ + decimal_text(n as nat),
    decreases n,
{
    if n >= 10 {
        push_decimal(out, n / 10);
    }
    push_char(out, hex_char((n % 10) as u8));
    assert(out@ =~= old(out)@ + decimal_text(n as nat));
}

/// Appends the lowercase hexadecimal digits of `n` to `out`.
pub fn push_hex(out: &mut String, n: u64)
    ensures
        final(out)@ == old(out)@ + hex_text(n as nat),
    decreases n,
{
    if n >= 16 {
        push_hex(out, n / 16);
    }
    push_char(out, hex_char((n % 16) as u8));
    assert(out@ =~= old(out)@ + hex_text(n as nat));
}

} // verus!
