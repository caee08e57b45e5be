//! Text the machine emits: the UTF-8 encoding of a Unicode scalar value and
//! the signed decimal representation of a register, both as byte sequences.

use vstd::prelude::*;

verus! {

/// Whether `c` is a Unicode scalar value: any code point outside the
/// surrogate range `0xD800..=0xDFFF` and at most `0x10FFFF`.
pub open spec fn spec_is_scalar(c: u32) -> bool {
    c < 0xD800 || (0xE000 <= c && c <= 0x10FFFF)
}

/// The UTF-8 encoding of the scalar value `c`: one to four bytes.
pub open spec fn spec_utf8(c: u32) -> Seq<u8>
    recommends
        spec_is_scalar(c),
{
    if c < 0x80 {
        seq![c as u8]
    } else if c < 0x800 {
        seq![(0xC0 + c / 0x40) as u8, (0x80 + c % 0x40) as u8]
    } else if c < 0x10000 {
        seq![
            (0xE0 + c / 0x1000) as u8,
            (0x80 + (c / 0x40) % 0x40) as u8,
            (0x80 + c % 0x40) as u8,
        ]
    } else {
        seq![
            (0xF0 + c / 0x40000) as u8,
            (0x80 + (c / 0x1000) % 0x40) as u8,
            (0x80 + (c / 0x40) % 0x40) as u8,
            (0x80 + c % 0x40) as u8,
        ]
    }
}

/// The decimal digits of `n` (ASCII, most significant first, no sign and no
/// leading zeros).
pub open spec fn spec_decimal_digits(n: nat) -> Seq<u8>
    decreases n,
{
    if n < 10 {
        seq![(0x30 + n) as u8]
    } else {
        spec_decimal_digits(n / 10) + seq![(0x30 + n % 10) as u8]
    }
}

/// The signed decimal representation of `n`: a minus sign for negative
/// values, then the digits of the absolute value.
pub open spec fn spec_decimal(n: int) -> Seq<u8> {
    if n < 0 {
        seq![0x2Du8] + spec_decimal_digits((-n) as nat)
    } else {
        spec_decimal_digits(n as nat)
    }
}

/// Appends the UTF-8 encoding of the scalar value `c` to `buf`.
pub fn push_utf8(buf: &mut Vec<u8>, c: u32)
    requires
        spec_is_scalar(c),
    ensures
        final(buf)@ == old(buf)@ + spec_utf8(c),
{
    if c < 0x80 {
        buf.push(c as u8);
    } else if c < 0x800 {
        buf.push((0xC0 + c / 0x40) as u8);
        buf.push((0x80 + c % 0x40) as u8);
    } else if c < 0x10000 {
        buf.push((0xE0 + c / 0x1000) as u8);
        buf.push((0x80 + (c / 0x40) % 0x40) as u8);
        buf.push((0x80 + c % 0x40) as u8);
    } else {
        buf.push((0xF0 + c / 0x40000) as u8);
        buf.push((0x80 + (c / 0x1000) % 0x40) as u8);
        buf.push((0x80 + (c / 0x40) % 0x40) as u8);
        buf.push((0x80 + c % 0x40) as u8);
    }
    proof {
        assert(buf@ =~= old(buf)@ + spec_utf8(c));
    }
}

/// Appends the decimal digits of `n` to `buf`, most significant first.
pub fn push_decimal_digits(buf: &mut Vec<u8>, n: u32)
    ensures
        final(buf)@ == old(buf)@ + spec_decimal_digits(n as nat),
    decreases n,
{
    if n < 10 {
        buf.push(0x30 + n as u8);
    } else {
        push_decimal_digits(buf, n / 10);
        buf.push(0x30 + (n % 10) as u8);
        proof {
            assert(buf@ =~= old(buf)@ + spec_decimal_digits(n as nat));
        }
    }
}

/// The value of the register bits `x` read as a 32-bit two's-complement
/// signed integer.
pub open spec fn spec_as_signed(x: u32) -> int {
    if x < 0x80000000 {
        x as int
    } else {
        x - 0x100000000
    }
}

/// Appends the signed decimal representation of the register bits `x`,
/// read as a 32-bit two's-complement signed integer, to `buf`.
pub fn push_signed_decimal(buf: &mut Vec<u8>, x: u32)
    ensures
        final(buf)@ == old(buf)@ + spec_decimal(spec_as_signed(x)),
{
    if x < 0x80000000 {
        push_decimal_digits(buf, x);
    } else {
        let magnitude: u32 = (0x100000000u64 - x as u64) as u32;
        buf.push(0x2D);
        push_decimal_digits(buf, magnitude);
        proof {
            assert(buf@ =~= old(buf)@ + spec_decimal(spec_as_signed(x)));
        }
    }
}

} // verus!
