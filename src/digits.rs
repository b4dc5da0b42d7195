//! Rendering of unsigned numbers as text, in decimal and in lower-case
//! hexadecimal, most significant digit first.

use vstd::prelude::*;

verus! {

/// The character of the digit `d` (below 16): `0`-`9`, then `a`-`f`.
pub open spec fn digit_char(d: nat) -> char {
    if d < 10 {
        (48 + d) as char
    } else {
        (87 + d) as char
    }
}

/// Decimal digits of `n`, without leading zeros (`0` for zero).
pub open spec fn decimal(n: nat) -> Seq<char>
    decreases n,
{
    if n < 10 {
        seq![digit_char(n)]
    } else {
        decimal(n / 10).push(digit_char(n % 10))
    }
}

/// Lower-case hexadecimal digits of `n`, without leading zeros (`0` for zero).
pub open spec fn hexadecimal(n: nat) -> Seq<char>
    decreases n,
{
    if n < 16 {
        seq![digit_char(n)]
    } else {
        hexadecimal(n / 16).push(digit_char(n % 16))
    }
}

/// `n` in the alternate hexadecimal form: `0x` and its lower-case digits.
pub open spec fn prefixed_hex(n: nat) -> Seq<char> {
    seq!['0', 'x'] + hexadecimal(n)
}

fn digit(d: usize) -> (c: char)
    requires
        d < 16,
    ensures
        c == digit_char(d as nat),
{
    if d < 10 {
        ((48 + d) as u8) as char
    } else {
        ((87 + d) as u8) as char
    }
}

/// Appends the decimal digits of `n` to `out`.
pub fn push_decimal(out: &mut Vec<char>, n: usize)
    ensures
        final(out)@ == old(out)@ + decimal(n as nat),
    decreases n,
{
    if n < 10 {
        out.push(digit(n));
    } else {
        push_decimal(out, n / 10);
        out.push(digit(n % 10));
    }
}

/// Appends `0x` and the lower-case hexadecimal digits of `n` to `out`.
pub fn push_prefixed_hex(out: &mut Vec<char>, n: usize)
    ensures
        final(out)@ == old(out)@ + prefixed_hex(n as nat),
{
    out.push('0');
    out.push('x');
    push_hex_digits(out, n);
    assert(old(out)@ + prefixed_hex(n as nat) =~= old(out)@.push('0').push('x') + hexadecimal(n as nat));
}

fn push_hex_digits(out: &mut Vec<char>, n: usize)
    ensures
        final(out)@ == old(out)@ + hexadecimal(n as nat),
    decreases n,
{
    if n < 16 {
        out.push(digit(n));
    } else {
        push_hex_digits(out, n / 16);
        out.push(digit(n % 16));
    }
}

} // verus!
