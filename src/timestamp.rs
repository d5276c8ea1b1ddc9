//! A UTC calendar instant held as plain fields, and its two textual forms.

use vstd::prelude::*;
use crate::severity::is_digit;
use crate::text::{digit_char, padded_decimal, push_char, push_padded};

verus! {

/// A UTC date and time of day, to the second.
#[derive(Clone, Copy, Debug, PartialEq, Eq, Structural)]
pub struct DateTime {
    pub year: i32,
    pub month: u8,
    pub day: u8,
    pub hour: u8,
    pub minute: u8,
    pub second: u8,
}

impl DateTime {
    /// Every field lies in its calendar range.
    pub open spec fn wf(self) -> bool {
        &&& -999_999 <= self.year <= 999_999
        &&& 1 <= self.month <= 12
        &&& 1 <= self.day <= 31
        &&& self.hour < 24
        &&& self.minute < 60
        &&& self.second < 60
    }
}

/// A year with at least four digits, and a minus sign before a negative one.
pub open spec fn year_text(y: int) -> Seq<char> {
    if y < 0 {
        seq!['-'] + padded_decimal((-y) as nat, 4)
    } else {
        padded_decimal(y as nat, 4)
    }
}

pub open spec fn two(n: u8) -> Seq<char> {
    padded_decimal(n as nat, 2)
}

/// `HH:MM:SS`.
pub open spec fn clock_text(t: DateTime) -> Seq<char> {
    two(t.hour) + seq![':'] + two(t.minute) + seq![':'] + two(t.second)
}

/// `DD-MM-YYYY HH:MM:SS`, the form of a plain-text line.
pub open spec fn day_first_text(t: DateTime) -> Seq<char> {
    two(t.day) + seq!['-'] + two(t.month) + seq!['-'] + year_text(t.year as int) + seq![' ']
        + clock_text(t)
}

/// `YYYY-MM-DDTHH:MM:SSZ`, the ISO 8601 form of a JSON record.
pub open spec fn iso_text(t: DateTime) -> Seq<char> {
    year_text(t.year as int) + seq!['-'] + two(t.month) + seq!['-'] + two(t.day) + seq!['T']
        + clock_text(t) + seq!['Z']
}

fn push_year(out: &mut String, y: i32)
    requires
        -999_999 <= y <= 999_999,
    ensures
        final(out)@ == old(out)@ + year_text(y as int),
{
    if y < 0 {
        push_char(out, '-');
        push_padded(out, (-y) as u32, 4);
        assert(final(out)@ =~= old(out)@ + year_text(y as int));
    } else {
        push_padded(out, y as u32, 4);
    }
}

fn push_clock(out: &mut String, t: DateTime)
    ensures
        final(out)@ == old(out)@ + clock_text(t),
{
    push_padded(out, t.hour as u32, 2);
    push_char(out, ':');
    push_padded(out, t.minute as u32, 2);
    push_char(out, ':');
    push_padded(out, t.second as u32, 2);
    assert(final(out)@ =~= old(out)@ + clock_text(t));
}

/// Writes `t` as `DD-MM-YYYY HH:MM:SS`.
pub fn format_day_first(t: DateTime) -> (r: String)
    requires
        t.wf(),
    ensures
        r@ == day_first_text(t),
{
    let mut out = String::new();
    push_padded(&mut out, t.day as u32, 2);
    push_char(&mut out, '-');
    push_padded(&mut out, t.month as u32, 2);
    push_char(&mut out, '-');
    push_year(&mut out, t.year);
    push_char(&mut out, ' ');
    push_clock(&mut out, t);
    assert(out@ =~= day_first_text(t));
    out
}

/// Writes `t` as `YYYY-MM-DDTHH:MM:SSZ`.
pub fn format_iso(t: DateTime) -> (r: String)
    requires
        t.wf(),
    ensures
        r@ == iso_text(t),
{
    let mut out = String::new();
    push_year(&mut out, t.year);
    push_char(&mut out, '-');
    push_padded(&mut out, t.month as u32, 2);
    push_char(&mut out, '-');
    push_padded(&mut out, t.day as u32, 2);
    push_char(&mut out, 'T');
    push_clock(&mut out, t);
    push_char(&mut out, 'Z');
    assert(out@ =~= iso_text(t));
    out
}

/// Relies on `time::OffsetDateTime::now_utc` and its field getters, whose
/// documented ranges are the ones stated; the year lies within `Date::MIN`
/// and `Date::MAX` in every feature set of the crate.
#[verifier::external_body]
pub(crate) fn now_utc() -> (r: DateTime)
    ensures
        r.wf(),
{
    let now = time::OffsetDateTime::now_utc();
    DateTime {
        year: now.year(),
        month: now.month() as u8,
        day: now.day(),
        hour: now.hour(),
        minute: now.minute(),
        second: now.second(),
    }
}

pub open spec fn pow10(w: nat) -> nat
    decreases w,
{
    if w == 0 {
        1
    } else {
        10 * pow10((w - 1) as nat)
    }
}

/// `x` reads `DD-MM-YYYY HH:MM:SS`, each letter a decimal digit.
pub open spec fn stamp_shaped(x: Seq<char>) -> bool {
    &&& x.len() == 19
    &&& x[2] == '-' && x[5] == '-' && x[10] == ' ' && x[13] == ':' && x[16] == ':'
    &&& forall|i: int|
        0 <= i < 19 && i != 2 && i != 5 && i != 10 && i != 13 && i != 16 ==> is_digit(#[trigger] x[i])
}

/// A number below `10^width` takes exactly `width` digits.
pub proof fn lemma_padded_digits(n: nat, width: nat)
    requires
        width >= 1,
        n < pow10(width),
    ensures
        padded_decimal(n, width).len() == width,
        forall|i: int| 0 <= i < width ==> is_digit(#[trigger] padded_decimal(n, width)[i]),
    decreases width,
{
    reveal_with_fuel(pow10, 2);
    if n < 10 && width <= 1 {
        assert(is_digit(digit_char(n)));
    } else {
        let w = (width - 1) as nat;
        assert(n / 10 < pow10(w)) by (nonlinear_arith)
            requires
                n < 10 * pow10(w),
        ;
        lemma_padded_digits(n / 10, w);
        assert(is_digit(digit_char(n % 10)));
        let p = padded_decimal(n, width);
        assert(p == padded_decimal(n / 10, w).push(digit_char(n % 10)));
        assert forall|i: int| 0 <= i < width implies is_digit(#[trigger] p[i]) by {
            if i < w {
                assert(p[i] == padded_decimal(n / 10, w)[i]);
            }
        }
    }
}

/// The day-first form of an instant in the years 0 to 9999 has the shape
/// `DD-MM-YYYY HH:MM:SS`.
pub proof fn lemma_day_first_shape(t: DateTime)
    requires
        t.wf(),
        0 <= t.year <= 9999,
    ensures
        stamp_shaped(day_first_text(t)),
{
    reveal_with_fuel(pow10, 5);
    lemma_padded_digits(t.day as nat, 2);
    lemma_padded_digits(t.month as nat, 2);
    lemma_padded_digits(t.year as nat, 4);
    lemma_padded_digits(t.hour as nat, 2);
    lemma_padded_digits(t.minute as nat, 2);
    lemma_padded_digits(t.second as nat, 2);
    let x = day_first_text(t);
    let d = two(t.day);
    let m = two(t.month);
    let y = year_text(t.year as int);
    let h = two(t.hour);
    let mi = two(t.minute);
    let se = two(t.second);
    assert(x =~= d + seq!['-'] + m + seq!['-'] + y + seq![' '] + h + seq![':'] + mi + seq![':'] + se);
    assert(x.len() == 19);
    assert forall|i: int|
        0 <= i < 19 && i != 2 && i != 5 && i != 10 && i != 13 && i != 16 implies is_digit(#[trigger] x[i]) by {
        if i < 2 {
            assert(x[i] == d[i]);
        } else if i < 5 {
            assert(x[i] == m[i - 3]);
        } else if i < 10 {
            assert(x[i] == y[i - 6]);
        } else if i < 13 {
            assert(x[i] == h[i - 11]);
        } else if i < 16 {
            assert(x[i] == mi[i - 14]);
        } else {
            assert(x[i] == se[i - 17]);
        }
    }
}

} // verus!
