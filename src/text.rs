//! Building strings one character or one number at a time.

use vstd::prelude::*;

verus! {

/// The character of a decimal digit.
pub open spec fn digit_char(d: nat) -> char {
    ((('0' as u32) as nat) + d) as char
}

/// `n` in decimal, with leading zeros up to at least `width` digits.
pub open spec fn padded_decimal(n: nat, width: nat) -> Seq<char>
    decreases n, width,
{
    if n < 10 && width <= 1 {
        seq![digit_char(n)]
    } else {
        padded_decimal(n / 10, if width > 0 { (width - 1) as nat } else { 0 }).push(
            digit_char(n % 10),
        )
    }
}

/// Relies on `String::push`: appends one character.
#[verifier::external_body]
pub(crate) fn push_char(s: &mut String, c: char)
    ensures
        final(s)@ == old(s)@.push(c),
{
    s.push(c);
}

/// Appends `n` in decimal, zero-padded to at least `width` digits.
pub fn push_padded(out: &mut String, n: u32, width: u32)
    ensures
        final(out)@ == old(out)@ + padded_decimal(n as nat, width as nat),
    decreases n, width,
{
    if n < 10 && width <= 1 {
        push_char(out, (48u8 + n as u8) as char);
    } else {
        let rest: u32 = if width > 0 { width - 1 } else { 0 };
        push_padded(out, n / 10, rest);
        push_char(out, (48u8 + (n % 10) as u8) as char);
        assert(final(out)@ =~= old(out)@ + padded_decimal(n as nat, width as nat));
    }
}

} // verus!
