//! Byte-level helpers: splitting and joining 16-bit values, and the
//! mathematical definitions of the wrapping arithmetic, flag conditions and
//! jump-target computation that the instruction contracts are stated over.

use vstd::prelude::*;

verus! {

/// 8-bit increment, wrapping modulo 256.
pub open spec fn inc8(v: u8) -> u8 {
    ((v + 1) % 256) as u8
}

/// 8-bit decrement, wrapping modulo 256.
pub open spec fn dec8(v: u8) -> u8 {
    ((v + 255) % 256) as u8
}

/// 16-bit increment, wrapping modulo 2^16.
pub open spec fn inc16(v: u16) -> u16 {
    ((v + 1) % 0x10000) as u16
}

/// 16-bit decrement, wrapping modulo 2^16.
pub open spec fn dec16(v: u16) -> u16 {
    ((v + 0xFFFF) % 0x10000) as u16
}

/// 16-bit addition, wrapping modulo 2^16.
pub open spec fn wrap_add16(a: u16, b: u16) -> u16 {
    ((a + b) % 0x10000) as u16
}

/// 8-bit addition of two operands and a carry-in bit, wrapping modulo 256.
pub open spec fn add8_val(a: u8, b: u8, cin: u8) -> u8 {
    ((a + b + cin) % 256) as u8
}

/// Carry out of bit 7: the full-width 8-bit sum exceeds 0xFF.
pub open spec fn carry_add8(a: u8, b: u8, cin: u8) -> bool {
    a + b + cin > 0xFF
}

/// Half-carry out of bit 3: the low-nibble sum exceeds 0xF.
pub open spec fn half_carry_add8(a: u8, b: u8, cin: u8) -> bool {
    a % 16 + b % 16 + cin > 0xF
}

/// Half-borrow when subtracting one: the low nibble is zero before borrowing.
pub open spec fn half_borrow_dec8(v: u8) -> bool {
    v % 16 == 0
}

/// Carry out of bit 15: the full-width 16-bit sum exceeds 0xFFFF.
pub open spec fn carry_add16(a: u16, b: u16) -> bool {
    a + b > 0xFFFF
}

/// Half-carry out of bit 11: the sum of the low 12 bits exceeds 0xFFF.
pub open spec fn half_carry_add16(a: u16, b: u16) -> bool {
    a % 0x1000 + b % 0x1000 > 0xFFF
}

/// A displacement byte sign-extended to 16 bits in two's complement.
pub open spec fn sign_extend8(off: u8) -> u16 {
    if off < 0x80 {
        off as u16
    } else {
        (off + 0xFF00) as u16
    }
}

/// Target of a relative jump with a two-byte instruction: the displacement is
/// added to the address just past the instruction, wrapping modulo 2^16.
pub open spec fn jr_target(pc: u16, off: u8) -> u16 {
    ((pc + 2 + sign_extend8(off)) % 0x10000) as u16
}

/// Rotating an 8-bit value left by one, with `bit0` shifted in at the bottom.
pub open spec fn rot_left_val(a: u8, bit0: u8) -> u8 {
    ((a % 128) * 2 + bit0) as u8
}

/// Rotating an 8-bit value right by one, with `bit7` shifted in at the top.
pub open spec fn rot_right_val(a: u8, bit7: u8) -> u8 {
    (a / 2 + bit7 * 128) as u8
}

/// Accumulator value after the decimal-adjust correction. In the additive
/// case (`n` false) 0x60 and 0x06 are added when the high or low decimal
/// digit overflowed; in the subtractive case they are subtracted (modulo 256,
/// 0xA0 and 0xFA are the same corrections) only on the recorded carries.
pub open spec fn daa_value(a: u8, n: bool, h: bool, c: bool) -> u8 {
    if !n {
        let r1 = if c || a > 0x99 {
            ((a + 0x60) % 256) as u8
        } else {
            a
        };
        if h || a % 16 > 9 {
            ((r1 + 0x06) % 256) as u8
        } else {
            r1
        }
    } else {
        let r1 = if c {
            ((a + 0xA0) % 256) as u8
        } else {
            a
        };
        if h {
            ((r1 + 0xFA) % 256) as u8
        } else {
            r1
        }
    }
}

/// Carry flag after decimal adjust: in the additive case a correction of the
/// high digit sets it and it is never cleared; in the subtractive case it is
/// left as it was.
pub open spec fn daa_carry(a: u8, n: bool, c: bool) -> bool {
    if !n {
        c || a > 0x99
    } else {
        c
    }
}

/// 8-bit addition of two operands and a carry-in, wrapping modulo 256.
pub fn wrapping_add8(a: u8, b: u8, cin: u8) -> (r: u8)
    ensures
        r == add8_val(a, b, cin),
{
    ((a as u16 + b as u16 + cin as u16) % 256) as u8
}

/// 8-bit increment, wrapping modulo 256.
pub fn wrapping_inc8(v: u8) -> (r: u8)
    ensures
        r == inc8(v),
{
    ((v as u16 + 1) % 256) as u8
}

/// 8-bit decrement, wrapping modulo 256.
pub fn wrapping_dec8(v: u8) -> (r: u8)
    ensures
        r == dec8(v),
{
    ((v as u16 + 255) % 256) as u8
}

/// 16-bit addition, wrapping modulo 2^16.
pub fn wrapping_add16(a: u16, b: u16) -> (r: u16)
    ensures
        r == wrap_add16(a, b),
{
    ((a as u32 + b as u32) % 0x10000) as u16
}

/// 16-bit increment, wrapping modulo 2^16.
pub fn wrapping_inc16(v: u16) -> (r: u16)
    ensures
        r == inc16(v),
{
    ((v as u32 + 1) % 0x10000) as u16
}

/// 16-bit decrement, wrapping modulo 2^16.
pub fn wrapping_dec16(v: u16) -> (r: u16)
    ensures
        r == dec16(v),
{
    ((v as u32 + 0xFFFF) % 0x10000) as u16
}

/// Target of a relative jump: the displacement byte, sign-extended, added to
/// the address just past the two-byte instruction, wrapping modulo 2^16.
pub fn compute_jr_target(pc: u16, off: u8) -> (r: u16)
    ensures
        r == jr_target(pc, off),
{
    let disp: u16 = if off < 0x80 {
        off as u16
    } else {
        off as u16 + 0xFF00
    };
    ((pc as u32 + 2 + disp as u32) % 0x10000) as u16
}

/// Least significant byte of a 16-bit value.
pub fn get_lsb_u16(value: u16) -> (r: u8)
    ensures
        r == value % 256,
{
    (value % 256) as u8
}

/// Most significant byte of a 16-bit value.
pub fn get_msb_u16(value: u16) -> (r: u8)
    ensures
        r == value / 256,
{
    (value / 256) as u8
}

/// Joins a high and a low byte into a 16-bit value.
pub fn format_u16(high: u8, low: u8) -> (r: u16)
    ensures
        r == high * 256 + low,
{
    (high as u16) * 256 + (low as u16)
}

/// Least significant bit of an 8-bit value.
pub fn get_lsb_u8(value: u8) -> (r: u8)
    ensures
        r == value % 2,
{
    value % 2
}

} // verus!
