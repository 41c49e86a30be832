//! Executable rendering of numeric leaves, verified against the digit
//! specifications of the shape model.

use vstd::prelude::*;
use vstd::utf8::encode_scalar;

use crate::shape::{dec_digit, dec_digits, hex_digit, hex_digits, next_pow2, saturated,
    signed_dec_digits};
use crate::sink::push_char;

verus! {

/// The decimal digit character for `d`.
pub(crate) fn dec_digit_char(d: u8) -> (c: char)
    requires
        d < 10,
    ensures
        c == dec_digit(d as nat),
{
    if d == 0 {
        '0'
    } else if d == 1 {
        '1'
    } else if d == 2 {
        '2'
    } else if d == 3 {
        '3'
    } else if d == 4 {
        '4'
    } else if d == 5 {
        '5'
    } else if d == 6 {
        '6'
    } else if d == 7 {
        '7'
    } else if d == 8 {
        '8'
    } else {
        '9'
    }
}

/// The lower-case hexadecimal digit character for `d`.
pub(crate) fn hex_digit_char(d: u8) -> (c: char)
    requires
        d < 16,
    ensures
        c == hex_digit(d as nat),
{
    if d < 10 {
        dec_digit_char(d)
    } else if d == 10 {
        'a'
    } else if d == 11 {
        'b'
    } else if d == 12 {
        'c'
    } else if d == 13 {
        'd'
    } else if d == 14 {
        'e'
    } else {
        'f'
    }
}

/// Appends the base-10 rendering of `n` to `s`.
pub(crate) fn push_dec_u64(n: u64, s: &mut String)
    ensures
        final(s)@ == old(s)@ + dec_digits(n as nat),
    decreases n,
{
    if n >= 10 {
        push_dec_u64(n / 10, s);
    }
    push_char(s, dec_digit_char((n % 10) as u8));
    proof {
        assert(s@ =~= old(s)@ + dec_digits(n as nat));
    }
}

/// Appends the base-10 rendering of `i` to `s`, with a leading `'-'` when
/// `i` is negative.
pub(crate) fn push_dec_i64(i: i64, s: &mut String)
    ensures
        final(s)@ == old(s)@ + signed_dec_digits(i as int),
{
    if i >= 0 {
        push_dec_u64(i as u64, s);
    } else {
        push_char(s, '-');
        let mag: u64 = if i == i64::MIN {
            9223372036854775808u64
        } else {
            (-i) as u64
        };
        push_dec_u64(mag, s);
        proof {
            assert(s@ =~= old(s)@ + signed_dec_digits(i as int));
        }
    }
}

/// Appends the lower-case base-16 rendering of `n` to `s`.
pub(crate) fn push_hex_u64(n: u64, s: &mut String)
    ensures
        final(s)@ == old(s)@ + hex_digits(n as nat),
    decreases n,
{
    if n >= 16 {
        push_hex_u64(n / 16, s);
    }
    push_char(s, hex_digit_char((n % 16) as u8));
    proof {
        assert(s@ =~= old(s)@ + hex_digits(n as nat));
    }
}

/// The UTF-8 byte length of `c`.
pub(crate) fn char_utf8_len(c: char) -> (n: usize)
    ensures
        n == encode_scalar(c as u32).len(),
{
    let u = c as u32;
    if u < 0x80 {
        1
    } else if u < 0x800 {
        2
    } else if u < 0x10000 {
        3
    } else {
        4
    }
}

/// Adds two lengths, saturating at the largest `usize`.
pub(crate) fn sat_add(a: usize, b: usize) -> (r: usize)
    ensures
        r as nat == saturated(a as nat + b as nat),
{
    if a > usize::MAX - b {
        usize::MAX
    } else {
        a + b
    }
}

/// The least power of two that is at least `n` (and at least 1), saturating
/// at the largest `usize` where that power does not fit.
pub(crate) fn pow2_roundup(n: usize) -> (r: usize)
    ensures
        r as nat == saturated(next_pow2(n as nat)),
    decreases n,
{
    if n <= 1 {
        1
    } else {
        let h = pow2_roundup(n / 2 + n % 2);
        if h > usize::MAX / 2 {
            usize::MAX
        } else {
            2 * h
        }
    }
}

} // verus!
