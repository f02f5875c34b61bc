//! Accumulator arithmetic: 8-bit adds into A, with and without the carry
//! flag, operating directly on the register file.

use vstd::prelude::*;
use crate::cpu::flag::{Flag, C_FLAG};
use crate::cpu::register::{Register, R8};
use crate::utils::byte_utils::{add8_val, carry_add8, half_carry_add8, wrapping_add8};

verus! {

/// Add of `v` and the carry flag into the accumulator: wraps modulo 256;
/// carry and half-carry come from the full and low-nibble sums of the
/// pre-wrap operands, subtract is cleared, zero reflects the wrapped result.
pub open spec fn adc_a_post(r0: Register, r1: Register, v: u8) -> bool {
    let a = r0.a;
    let cin: u8 = if r0.f.c {
        1
    } else {
        0
    };
    let res = add8_val(a, v, cin);
    r1 == r0.spec_set_r8(R8::A, res).spec_with_f(
        Flag {
            c: carry_add8(a, v, cin),
            n: false,
            h: half_carry_add8(a, v, cin),
            z: res == 0,
        },
    )
}

/// Add of `v` into the accumulator without a carry-in; flags as for the
/// add-with-carry.
pub open spec fn add_a_post(r0: Register, r1: Register, v: u8) -> bool {
    let a = r0.a;
    let res = add8_val(a, v, 0);
    r1 == r0.spec_set_r8(R8::A, res).spec_with_f(
        Flag {
            c: carry_add8(a, v, 0),
            n: false,
            h: half_carry_add8(a, v, 0),
            z: res == 0,
        },
    )
}

/// Law: with the carry flag clear, add-with-carry agrees exactly with the
/// plain add — same accumulator and same flags — and its carry-out is set
/// exactly when the widened sum of the operands exceeds 255.
pub proof fn lemma_adc_without_carry_matches_add(
    r0: Register,
    r1: Register,
    r2: Register,
    v: u8,
)
    requires
        r0.f.c == false,
        adc_a_post(r0, r1, v),
        add_a_post(r0, r2, v),
    ensures
        r1 == r2,
        r1.f.c == (r0.a + v > 255),
{
}

pub struct CPUInstruction;

impl CPUInstruction {
    /// Adds `r8` and the carry flag to the accumulator.
    pub fn adc_a_r8(registers: &mut Register, r8: u8)
        ensures
            adc_a_post(*old(registers), *final(registers), r8),
    {
        let carry: u8 = if registers.f.get_flag(C_FLAG) {
            1
        } else {
            0
        };
        let a: u8 = registers.get_a();
        let res: u8 = wrapping_add8(a, r8, carry);
        let c: bool = (a as u16) + (r8 as u16) + (carry as u16) > 0xFF;
        let h: bool = (a % 16) + (r8 % 16) + carry > 0xF;
        registers.f.set_flags(c, false, h, res == 0);
        registers.set_a(res);
    }

    /// Adds the byte read at address HL to the accumulator, without a
    /// carry-in: a plain add, unlike the add-with-carry group. The caller
    /// fetches the byte from the bus and passes it in.
    pub fn add_a_hl(registers: &mut Register, value: u8)
        ensures
            add_a_post(*old(registers), *final(registers), value),
    {
        let a: u8 = registers.get_a();
        let res: u8 = wrapping_add8(a, value, 0);
        let c: bool = (a as u16) + (value as u16) > 0xFF;
        let h: bool = (a % 16) + (value % 16) > 0xF;
        registers.f.set_flags(c, false, h, res == 0);
        registers.set_a(res);
    }

    /// Adds `r8` to the accumulator, without a carry-in.
    pub fn add_a_r8(registers: &mut Register, r8: u8)
        ensures
            add_a_post(*old(registers), *final(registers), r8),
    {
        let a: u8 = registers.get_a();
        let res: u8 = wrapping_add8(a, r8, 0);
        let c: bool = (a as u16) + (r8 as u16) > 0xFF;
        let h: bool = (a % 16) + (r8 % 16) > 0xF;
        registers.f.set_flags(c, false, h, res == 0);
        registers.set_a(res);
    }
}

} // verus!
