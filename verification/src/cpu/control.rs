//! Control and arithmetic instruction handlers: increments and decrements,
//! 16-bit adds into HL, rotates, decimal adjust, complement, carry-flag
//! instructions and relative jumps.
//!
//! Each handler's contract is stated as a predicate over the processor state
//! before and after the instruction (and over the bus, where the instruction
//! touches memory); the decoder's contract reuses the same predicates.

use vstd::prelude::*;
use crate::cpu::cpu::{advance, Fault, CPU};
use crate::cpu::flag::{Flag, C_FLAG, H_FLAG, N_FLAG, Z_FLAG};
use crate::cpu::register::{R8, RP};
use crate::memory_bus::memory_bus::MemoryBus;
use crate::utils::byte_utils::{
    carry_add16,
    compute_jr_target,
    daa_carry,
    daa_value,
    dec16,
    dec8,
    half_borrow_dec8,
    half_carry_add16,
    half_carry_add8,
    inc16,
    inc8,
    jr_target,
    rot_left_val,
    rot_right_val,
    wrap_add16,
    wrapping_add16,
    wrapping_add8,
    wrapping_dec16,
    wrapping_dec8,
    wrapping_inc16,
    wrapping_inc8,
};

verus! {

/// No operation: one byte, four cycles, nothing else.
pub open spec fn nop_post(c0: CPU, c1: CPU) -> bool {
    &&& advance(c0, c1, 1, 4)
    &&& c1.registers == c0.registers
}

/// Stop: clears the running flag; two bytes, four cycles.
pub open spec fn stop_post(c0: CPU, c1: CPU) -> bool {
    &&& c1.pc == wrap_add16(c0.pc, 2)
    &&& c1.cycles == c0.cycles + 4
    &&& c1.sp == c0.sp
    &&& c1.is_running == false
    &&& c1.registers == c0.registers
}

/// An 8-bit register increment: wraps modulo 256; the carry flag is
/// untouched, subtract is cleared, half-carry reflects a low-nibble
/// overflow, zero reflects the wrapped result.
pub open spec fn inc_r8_post(c0: CPU, c1: CPU, r: R8) -> bool {
    let v = c0.registers.spec_r8(r);
    let res = inc8(v);
    &&& advance(c0, c1, 1, 4)
    &&& c1.registers == c0.registers.spec_set_r8(r, res).spec_with_f(
        Flag { c: c0.registers.f.c, n: false, h: half_carry_add8(v, 1, 0), z: res == 0 },
    )
}

/// An 8-bit register decrement: wraps modulo 256; the carry flag is
/// untouched, subtract is set, half-carry reflects a borrow out of bit 4,
/// zero reflects the wrapped result.
pub open spec fn dec_r8_post(c0: CPU, c1: CPU, r: R8) -> bool {
    let v = c0.registers.spec_r8(r);
    let res = dec8(v);
    &&& advance(c0, c1, 1, 4)
    &&& c1.registers == c0.registers.spec_set_r8(r, res).spec_with_f(
        Flag { c: c0.registers.f.c, n: true, h: half_borrow_dec8(v), z: res == 0 },
    )
}

/// A 16-bit register-pair increment: wraps modulo 2^16 and never touches
/// the flags.
pub open spec fn inc_rp_post(c0: CPU, c1: CPU, p: RP) -> bool {
    &&& advance(c0, c1, 1, 8)
    &&& c1.registers == c0.registers.spec_set_rp(p, inc16(c0.registers.spec_rp(p)))
}

/// A 16-bit register-pair decrement: wraps modulo 2^16 and never touches
/// the flags.
pub open spec fn dec_rp_post(c0: CPU, c1: CPU, p: RP) -> bool {
    &&& advance(c0, c1, 1, 8)
    &&& c1.registers == c0.registers.spec_set_rp(p, dec16(c0.registers.spec_rp(p)))
}

/// A stack-pointer increment: wraps modulo 2^16 and never touches the flags.
pub open spec fn inc_sp_post(c0: CPU, c1: CPU) -> bool {
    &&& c1.pc == wrap_add16(c0.pc, 1)
    &&& c1.cycles == c0.cycles + 8
    &&& c1.sp == inc16(c0.sp)
    &&& c1.is_running == c0.is_running
    &&& c1.registers == c0.registers
}

/// A stack-pointer decrement: wraps modulo 2^16 and never touches the flags.
pub open spec fn dec_sp_post(c0: CPU, c1: CPU) -> bool {
    &&& c1.pc == wrap_add16(c0.pc, 1)
    &&& c1.cycles == c0.cycles + 8
    &&& c1.sp == dec16(c0.sp)
    &&& c1.is_running == c0.is_running
    &&& c1.registers == c0.registers
}

/// A 16-bit add of `v` into HL: wraps modulo 2^16; carry and half-carry come
/// from the full-width and low-12-bit sums of the pre-wrap operands,
/// subtract is cleared and the zero flag is preserved unchanged.
pub open spec fn add_hl_post(c0: CPU, c1: CPU, v: u16) -> bool {
    let hl = c0.registers.spec_hl();
    &&& advance(c0, c1, 1, 8)
    &&& c1.registers == c0.registers.spec_set_hl(wrap_add16(hl, v)).spec_with_f(
        Flag {
            c: carry_add16(hl, v),
            n: false,
            h: half_carry_add16(hl, v),
            z: c0.registers.f.z,
        },
    )
}

/// Rotate A left; the old bit 7 becomes both bit 0 and the carry flag, and
/// the other flags are cleared.
pub open spec fn rlca_post(c0: CPU, c1: CPU) -> bool {
    let a = c0.registers.a;
    &&& advance(c0, c1, 1, 4)
    &&& c1.registers == c0.registers.spec_set_r8(R8::A, rot_left_val(a, (a / 128) as u8)).spec_with_f(
        Flag { c: a >= 0x80, n: false, h: false, z: false },
    )
}

/// Rotate A left through carry: the old carry becomes bit 0, the old bit 7
/// the new carry, and the other flags are cleared.
pub open spec fn rla_post(c0: CPU, c1: CPU) -> bool {
    let a = c0.registers.a;
    let cin: u8 = if c0.registers.f.c {
        1
    } else {
        0
    };
    &&& advance(c0, c1, 1, 4)
    &&& c1.registers == c0.registers.spec_set_r8(R8::A, rot_left_val(a, cin)).spec_with_f(
        Flag { c: a >= 0x80, n: false, h: false, z: false },
    )
}

/// Rotate A right; the old bit 0 becomes both bit 7 and the carry flag, and
/// the other flags are cleared.
pub open spec fn rrca_post(c0: CPU, c1: CPU) -> bool {
    let a = c0.registers.a;
    &&& advance(c0, c1, 1, 4)
    &&& c1.registers == c0.registers.spec_set_r8(
        R8::A,
        rot_right_val(a, (a % 2) as u8),
    ).spec_with_f(Flag { c: a % 2 == 1, n: false, h: false, z: false })
}

/// Rotate A right through carry: the old carry becomes bit 7, the old bit 0
/// the new carry, and the other flags are cleared.
pub open spec fn rra_post(c0: CPU, c1: CPU) -> bool {
    let a = c0.registers.a;
    let cin: u8 = if c0.registers.f.c {
        1
    } else {
        0
    };
    &&& advance(c0, c1, 1, 4)
    &&& c1.registers == c0.registers.spec_set_r8(R8::A, rot_right_val(a, cin)).spec_with_f(
        Flag { c: a % 2 == 1, n: false, h: false, z: false },
    )
}

/// Decimal adjust of A after a BCD addition or subtraction. The applied
/// correction can set the carry flag but never clears it; subtract is kept,
/// half-carry is cleared, zero reflects the corrected result.
pub open spec fn daa_post(c0: CPU, c1: CPU) -> bool {
    let a = c0.registers.a;
    let n = c0.registers.f.n;
    let h = c0.registers.f.h;
    let c = c0.registers.f.c;
    let res = daa_value(a, n, h, c);
    &&& advance(c0, c1, 1, 4)
    &&& c1.registers == c0.registers.spec_set_r8(R8::A, res).spec_with_f(
        Flag { c: daa_carry(a, n, c), n, h: false, z: res == 0 },
    )
}

/// Complement of A: sets subtract and half-carry, preserves carry and zero.
pub open spec fn cpl_post(c0: CPU, c1: CPU) -> bool {
    &&& advance(c0, c1, 1, 4)
    &&& c1.registers == c0.registers.spec_set_r8(R8::A, (255 - c0.registers.a) as u8).spec_with_f(
        Flag { c: c0.registers.f.c, n: true, h: true, z: c0.registers.f.z },
    )
}

/// Set carry flag: clears subtract and half-carry, preserves zero.
pub open spec fn scf_post(c0: CPU, c1: CPU) -> bool {
    &&& advance(c0, c1, 1, 4)
    &&& c1.registers == c0.registers.spec_with_f(
        Flag { c: true, n: false, h: false, z: c0.registers.f.z },
    )
}

/// Complement carry flag: clears subtract and half-carry, preserves zero.
pub open spec fn ccf_post(c0: CPU, c1: CPU) -> bool {
    &&& advance(c0, c1, 1, 4)
    &&& c1.registers == c0.registers.spec_with_f(
        Flag { c: !c0.registers.f.c, n: false, h: false, z: c0.registers.f.z },
    )
}

/// An unconditional relative jump: the displacement byte `off` (read just
/// past the opcode) is sign-extended and added to the address after the
/// two-byte instruction; twelve cycles.
pub open spec fn jr_post(c0: CPU, c1: CPU, off: u8) -> bool {
    &&& c1.pc == jr_target(c0.pc, off)
    &&& c1.cycles == c0.cycles + 12
    &&& c1.sp == c0.sp
    &&& c1.is_running == c0.is_running
    &&& c1.registers == c0.registers
}

/// A conditional relative jump: taken, it behaves as the unconditional jump
/// (twelve cycles); not taken, the program counter only advances past the
/// displacement byte (eight cycles). Flags are never changed.
pub open spec fn jr_cond_post(c0: CPU, c1: CPU, off: u8, taken: bool) -> bool {
    &&& c1.pc == (if taken {
        jr_target(c0.pc, off)
    } else {
        wrap_add16(c0.pc, 2)
    })
    &&& c1.cycles == c0.cycles + (if taken {
        12int
    } else {
        8int
    })
    &&& c1.sp == c0.sp
    &&& c1.is_running == c0.is_running
    &&& c1.registers == c0.registers
}

/// Increment of the byte at address HL. On a writable address the byte wraps
/// modulo 256 and the flags are set as for a register increment (carry
/// untouched); on a read-only address nothing changes and the fault names
/// the address.
pub open spec fn inc_hl_ind_post(
    c0: CPU,
    c1: CPU,
    b0: MemoryBus,
    b1: MemoryBus,
    r: Result<(), Fault>,
) -> bool {
    let addr = c0.registers.spec_hl();
    let m = b0.spec_read(addr);
    let res = inc8(m);
    if MemoryBus::spec_writable(addr) {
        &&& r == Ok::<(), Fault>(())
        &&& MemoryBus::write_post(b0, b1, addr, res)
        &&& advance(c0, c1, 1, 12)
        &&& c1.registers == c0.registers.spec_with_f(
            Flag { c: c0.registers.f.c, n: false, h: half_carry_add8(m, 1, 0), z: res == 0 },
        )
    } else {
        &&& r == Err::<(), Fault>(Fault::IllegalWrite(addr))
        &&& c1 == c0
        &&& b1 == b0
    }
}

/// Decrement of the byte at address HL; flags as for a register decrement.
pub open spec fn dec_hl_ind_post(
    c0: CPU,
    c1: CPU,
    b0: MemoryBus,
    b1: MemoryBus,
    r: Result<(), Fault>,
) -> bool {
    let addr = c0.registers.spec_hl();
    let m = b0.spec_read(addr);
    let res = dec8(m);
    if MemoryBus::spec_writable(addr) {
        &&& r == Ok::<(), Fault>(())
        &&& MemoryBus::write_post(b0, b1, addr, res)
        &&& advance(c0, c1, 1, 12)
        &&& c1.registers == c0.registers.spec_with_f(
            Flag { c: c0.registers.f.c, n: true, h: half_borrow_dec8(m), z: res == 0 },
        )
    } else {
        &&& r == Err::<(), Fault>(Fault::IllegalWrite(addr))
        &&& c1 == c0
        &&& b1 == b0
    }
}

/// Law: an 8-bit register increment followed by a decrement of the result
/// restores the register's value for every starting value. The flags do not
/// round-trip: the increment leaves the subtract flag clear, the decrement
/// leaves it set.
pub proof fn lemma_inc_then_dec_round_trip(c0: CPU, c1: CPU, c2: CPU, r: R8)
    requires
        inc_r8_post(c0, c1, r),
        dec_r8_post(c1, c2, r),
    ensures
        c2.registers.spec_r8(r) == c0.registers.spec_r8(r),
        c1.registers.f.n == false,
        c2.registers.f.n == true,
{
}

/// Law: an 8-bit register decrement followed by an increment of the result
/// restores the register's value for every starting value; the flags do not
/// round-trip, as above.
pub proof fn lemma_dec_then_inc_round_trip(c0: CPU, c1: CPU, c2: CPU, r: R8)
    requires
        dec_r8_post(c0, c1, r),
        inc_r8_post(c1, c2, r),
    ensures
        c2.registers.spec_r8(r) == c0.registers.spec_r8(r),
        c1.registers.f.n == true,
        c2.registers.f.n == false,
{
    let v0 = c0.registers.spec_r8(r);
    assert(c1.registers.spec_r8(r) == dec8(v0));
    assert(c2.registers.spec_r8(r) == inc8(dec8(v0)));
    assert(inc8(dec8(v0)) == v0);
}

/// Law: a 16-bit add into HL preserves the zero flag exactly, whatever the
/// operand and whatever the addition's result.
pub proof fn lemma_add_hl_preserves_zero_flag(c0: CPU, c1: CPU, v: u16)
    requires
        add_hl_post(c0, c1, v),
    ensures
        c1.registers.f.z == c0.registers.f.z,
{
}

pub struct Control;

impl Control {
    pub fn nop(cpu: &mut CPU)
        requires
            old(cpu).cycles + 4 <= u64::MAX,
        ensures
            nop_post(*old(cpu), *final(cpu)),
    {
        let new_pc: u16 = wrapping_add16(cpu.get_pc(), 1);
        cpu.update_pc_and_cycles(new_pc, 4);
    }

    pub fn stop(cpu: &mut CPU)
        requires
            old(cpu).cycles + 4 <= u64::MAX,
        ensures
            stop_post(*old(cpu), *final(cpu)),
    {
        cpu.set_running(false);
        let new_pc: u16 = wrapping_add16(cpu.get_pc(), 2);
        cpu.update_pc_and_cycles(new_pc, 4);
    }

    /// Shared body of the seven register increments.
    fn inc_r8(cpu: &mut CPU, r: R8)
        requires
            old(cpu).cycles + 4 <= u64::MAX,
        ensures
            inc_r8_post(*old(cpu), *final(cpu), r),
    {
        let v: u8 = cpu.registers.get_r8(r);
        let res: u8 = wrapping_inc8(v);
        let h: bool = v % 16 == 15;
        let c: bool = cpu.registers.f.get_flag(C_FLAG);
        cpu.registers.f.set_flags(c, false, h, res == 0);
        cpu.registers.set_r8(r, res);
        let new_pc: u16 = wrapping_add16(cpu.get_pc(), 1);
        cpu.update_pc_and_cycles(new_pc, 4);
    }

    /// Shared body of the seven register decrements.
    fn dec_r8(cpu: &mut CPU, r: R8)
        requires
            old(cpu).cycles + 4 <= u64::MAX,
        ensures
            dec_r8_post(*old(cpu), *final(cpu), r),
    {
        let v: u8 = cpu.registers.get_r8(r);
        let res: u8 = wrapping_dec8(v);
        let h: bool = v % 16 == 0;
        let c: bool = cpu.registers.f.get_flag(C_FLAG);
        cpu.registers.f.set_flags(c, true, h, res == 0);
        cpu.registers.set_r8(r, res);
        let new_pc: u16 = wrapping_add16(cpu.get_pc(), 1);
        cpu.update_pc_and_cycles(new_pc, 4);
    }

    pub fn inc_b(cpu: &mut CPU)
        requires
            old(cpu).cycles + 4 <= u64::MAX,
        ensures
            inc_r8_post(*old(cpu), *final(cpu), R8::B),
    {
        Self::inc_r8(cpu, R8::B)
    }

    pub fn dec_b(cpu: &mut CPU)
        requires
            old(cpu).cycles + 4 <= u64::MAX,
        ensures
            dec_r8_post(*old(cpu), *final(cpu), R8::B),
    {
        Self::dec_r8(cpu, R8::B)
    }

    pub fn inc_c(cpu: &mut CPU)
        requires
            old(cpu).cycles + 4 <= u64::MAX,
        ensures
            inc_r8_post(*old(cpu), *final(cpu), R8::C),
    {
        Self::inc_r8(cpu, R8::C)
    }

    pub fn dec_c(cpu: &mut CPU)
        requires
            old(cpu).cycles + 4 <= u64::MAX,
        ensures
            dec_r8_post(*old(cpu), *final(cpu), R8::C),
    {
        Self::dec_r8(cpu, R8::C)
    }

    pub fn inc_d(cpu: &mut CPU)
        requires
            old(cpu).cycles + 4 <= u64::MAX,
        ensures
            inc_r8_post(*old(cpu), *final(cpu), R8::D),
    {
        Self::inc_r8(cpu, R8::D)
    }

    pub fn dec_d(cpu: &mut CPU)
        requires
            old(cpu).cycles + 4 <= u64::MAX,
        ensures
            dec_r8_post(*old(cpu), *final(cpu), R8::D),
    {
        Self::dec_r8(cpu, R8::D)
    }

    pub fn inc_e(cpu: &mut CPU)
        requires
            old(cpu).cycles + 4 <= u64::MAX,
        ensures
            inc_r8_post(*old(cpu), *final(cpu), R8::E),
    {
        Self::inc_r8(cpu, R8::E)
    }

    pub fn dec_e(cpu: &mut CPU)
        requires
            old(cpu).cycles + 4 <= u64::MAX,
        ensures
            dec_r8_post(*old(cpu), *final(cpu), R8::E),
    {
        Self::dec_r8(cpu, R8::E)
    }

    pub fn inc_h(cpu: &mut CPU)
        requires
            old(cpu).cycles + 4 <= u64::MAX,
        ensures
            inc_r8_post(*old(cpu), *final(cpu), R8::H),
    {
        Self::inc_r8(cpu, R8::H)
    }

    pub fn dec_h(cpu: &mut CPU)
        requires
            old(cpu).cycles + 4 <= u64::MAX,
        ensures
            dec_r8_post(*old(cpu), *final(cpu), R8::H),
    {
        Self::dec_r8(cpu, R8::H)
    }

    pub fn inc_l(cpu: &mut CPU)
        requires
            old(cpu).cycles + 4 <= u64::MAX,
        ensures
            inc_r8_post(*old(cpu), *final(cpu), R8::L),
    {
        Self::inc_r8(cpu, R8::L)
    }

    pub fn dec_l(cpu: &mut CPU)
        requires
            old(cpu).cycles + 4 <= u64::MAX,
        ensures
            dec_r8_post(*old(cpu), *final(cpu), R8::L),
    {
        Self::dec_r8(cpu, R8::L)
    }

    pub fn inc_a(cpu: &mut CPU)
        requires
            old(cpu).cycles + 4 <= u64::MAX,
        ensures
            inc_r8_post(*old(cpu), *final(cpu), R8::A),
    {
        Self::inc_r8(cpu, R8::A)
    }

    pub fn dec_a(cpu: &mut CPU)
        requires
            old(cpu).cycles + 4 <= u64::MAX,
        ensures
            dec_r8_post(*old(cpu), *final(cpu), R8::A),
    {
        Self::dec_r8(cpu, R8::A)
    }

    /// Shared body of the register-pair increments.
    fn inc_rp(cpu: &mut CPU, p: RP)
        requires
            old(cpu).cycles + 8 <= u64::MAX,
        ensures
            inc_rp_post(*old(cpu), *final(cpu), p),
    {
        let v: u16 = cpu.registers.get_rp(p);
        let res: u16 = wrapping_inc16(v);
        cpu.registers.set_rp(p, res);
        let new_pc: u16 = wrapping_add16(cpu.get_pc(), 1);
        cpu.update_pc_and_cycles(new_pc, 8);
    }

    /// Shared body of the register-pair decrements.
    fn dec_rp(cpu: &mut CPU, p: RP)
        requires
            old(cpu).cycles + 8 <= u64::MAX,
        ensures
            dec_rp_post(*old(cpu), *final(cpu), p),
    {
        let v: u16 = cpu.registers.get_rp(p);
        let res: u16 = wrapping_dec16(v);
        cpu.registers.set_rp(p, res);
        let new_pc: u16 = wrapping_add16(cpu.get_pc(), 1);
        cpu.update_pc_and_cycles(new_pc, 8);
    }

    pub fn inc_bc(cpu: &mut CPU)
        requires
            old(cpu).cycles + 8 <= u64::MAX,
        ensures
            inc_rp_post(*old(cpu), *final(cpu), RP::BC),
    {
        Self::inc_rp(cpu, RP::BC)
    }

    pub fn dec_bc(cpu: &mut CPU)
        requires
            old(cpu).cycles + 8 <= u64::MAX,
        ensures
            dec_rp_post(*old(cpu), *final(cpu), RP::BC),
    {
        Self::dec_rp(cpu, RP::BC)
    }

    pub fn inc_de(cpu: &mut CPU)
        requires
            old(cpu).cycles + 8 <= u64::MAX,
        ensures
            inc_rp_post(*old(cpu), *final(cpu), RP::DE),
    {
        Self::inc_rp(cpu, RP::DE)
    }

    pub fn dec_de(cpu: &mut CPU)
        requires
            old(cpu).cycles + 8 <= u64::MAX,
        ensures
            dec_rp_post(*old(cpu), *final(cpu), RP::DE),
    {
        Self::dec_rp(cpu, RP::DE)
    }

    pub fn inc_hl(cpu: &mut CPU)
        requires
            old(cpu).cycles + 8 <= u64::MAX,
        ensures
            inc_rp_post(*old(cpu), *final(cpu), RP::HL),
    {
        Self::inc_rp(cpu, RP::HL)
    }

    pub fn dec_hl(cpu: &mut CPU)
        requires
            old(cpu).cycles + 8 <= u64::MAX,
        ensures
            dec_rp_post(*old(cpu), *final(cpu), RP::HL),
    {
        Self::dec_rp(cpu, RP::HL)
    }

    pub fn inc_sp(cpu: &mut CPU)
        requires
            old(cpu).cycles + 8 <= u64::MAX,
        ensures
            inc_sp_post(*old(cpu), *final(cpu)),
    {
        let sp: u16 = cpu.get_sp();
        let res: u16 = wrapping_inc16(sp);
        cpu.set_sp(res);
        let new_pc: u16 = wrapping_add16(cpu.get_pc(), 1);
        cpu.update_pc_and_cycles(new_pc, 8);
    }

    pub fn dec_sp(cpu: &mut CPU)
        requires
            old(cpu).cycles + 8 <= u64::MAX,
        ensures
            dec_sp_post(*old(cpu), *final(cpu)),
    {
        let sp: u16 = cpu.get_sp();
        let res: u16 = wrapping_dec16(sp);
        cpu.set_sp(res);
        let new_pc: u16 = wrapping_add16(cpu.get_pc(), 1);
        cpu.update_pc_and_cycles(new_pc, 8);
    }

    /// Shared body of the 16-bit adds into HL.
    fn add_hl(cpu: &mut CPU, v: u16)
        requires
            old(cpu).cycles + 8 <= u64::MAX,
        ensures
            add_hl_post(*old(cpu), *final(cpu), v),
    {
        let hl: u16 = cpu.registers.get_hl();
        let res: u16 = wrapping_add16(hl, v);
        cpu.registers.set_hl(res);
        let h: bool = (hl % 0x1000) + (v % 0x1000) > 0x0FFF;
        let c: bool = (hl as u32) + (v as u32) > 0xFFFF;
        // The zero flag is not affected by a 16-bit add: preserved explicitly.
        let z: bool = cpu.registers.f.get_flag(Z_FLAG);
        cpu.registers.f.set_flags(c, false, h, z);
        let new_pc: u16 = wrapping_add16(cpu.get_pc(), 1);
        cpu.update_pc_and_cycles(new_pc, 8);
    }

    pub fn add_hl_bc(cpu: &mut CPU)
        requires
            old(cpu).cycles + 8 <= u64::MAX,
        ensures
            add_hl_post(*old(cpu), *final(cpu), old(cpu).registers.spec_bc()),
    {
        let v: u16 = cpu.registers.get_bc();
        Self::add_hl(cpu, v)
    }

    pub fn add_hl_de(cpu: &mut CPU)
        requires
            old(cpu).cycles + 8 <= u64::MAX,
        ensures
            add_hl_post(*old(cpu), *final(cpu), old(cpu).registers.spec_de()),
    {
        let v: u16 = cpu.registers.get_de();
        Self::add_hl(cpu, v)
    }

    pub fn add_hl_hl(cpu: &mut CPU)
        requires
            old(cpu).cycles + 8 <= u64::MAX,
        ensures
            add_hl_post(*old(cpu), *final(cpu), old(cpu).registers.spec_hl()),
    {
        let v: u16 = cpu.registers.get_hl();
        Self::add_hl(cpu, v)
    }

    pub fn add_hl_sp(cpu: &mut CPU)
        requires
            old(cpu).cycles + 8 <= u64::MAX,
        ensures
            add_hl_post(*old(cpu), *final(cpu), old(cpu).sp),
    {
        let v: u16 = cpu.get_sp();
        Self::add_hl(cpu, v)
    }

    pub fn rlca(cpu: &mut CPU)
        requires
            old(cpu).cycles + 4 <= u64::MAX,
        ensures
            rlca_post(*old(cpu), *final(cpu)),
    {
        let a: u8 = cpu.registers.get_a();
        let msb: u8 = a / 128;
        let res: u8 = (a % 128) * 2 + msb;
        cpu.registers.set_a(res);
        cpu.registers.f.set_flags(msb == 1, false, false, false);
        let new_pc: u16 = wrapping_add16(cpu.get_pc(), 1);
        cpu.update_pc_and_cycles(new_pc, 4);
    }

    pub fn rla(cpu: &mut CPU)
        requires
            old(cpu).cycles + 4 <= u64::MAX,
        ensures
            rla_post(*old(cpu), *final(cpu)),
    {
        let a: u8 = cpu.registers.get_a();
        let cin: u8 = if cpu.registers.f.get_flag(C_FLAG) {
            1
        } else {
            0
        };
        let res: u8 = (a % 128) * 2 + cin;
        cpu.registers.set_a(res);
        cpu.registers.f.set_flags(a >= 0x80, false, false, false);
        let new_pc: u16 = wrapping_add16(cpu.get_pc(), 1);
        cpu.update_pc_and_cycles(new_pc, 4);
    }

    pub fn rrca(cpu: &mut CPU)
        requires
            old(cpu).cycles + 4 <= u64::MAX,
        ensures
            rrca_post(*old(cpu), *final(cpu)),
    {
        let a: u8 = cpu.registers.get_a();
        let lsb: u8 = a % 2;
        let res: u8 = a / 2 + lsb * 128;
        cpu.registers.set_a(res);
        cpu.registers.f.set_flags(lsb == 1, false, false, false);
        let new_pc: u16 = wrapping_add16(cpu.get_pc(), 1);
        cpu.update_pc_and_cycles(new_pc, 4);
    }

    pub fn rra(cpu: &mut CPU)
        requires
            old(cpu).cycles + 4 <= u64::MAX,
        ensures
            rra_post(*old(cpu), *final(cpu)),
    {
        let a: u8 = cpu.registers.get_a();
        let cin: u8 = if cpu.registers.f.get_flag(C_FLAG) {
            1
        } else {
            0
        };
        let res: u8 = a / 2 + cin * 128;
        cpu.registers.set_a(res);
        cpu.registers.f.set_flags(a % 2 == 1, false, false, false);
        let new_pc: u16 = wrapping_add16(cpu.get_pc(), 1);
        cpu.update_pc_and_cycles(new_pc, 4);
    }

    pub fn daa(cpu: &mut CPU)
        requires
            old(cpu).cycles + 4 <= u64::MAX,
        ensures
            daa_post(*old(cpu), *final(cpu)),
    {
        let a: u8 = cpu.registers.get_a();
        let n: bool = cpu.registers.f.get_flag(N_FLAG);
        let half_carry: bool = cpu.registers.f.get_flag(H_FLAG);
        let mut carry: bool = cpu.registers.f.get_flag(C_FLAG);
        let mut res: u8 = a;
        if !n {
            if carry || a > 0x99 {
                res = wrapping_add8(res, 0x60, 0);
                carry = true;
            }
            if half_carry || a % 16 > 9 {
                res = wrapping_add8(res, 0x06, 0);
            }
        } else {
            if carry {
                res = wrapping_add8(res, 0xA0, 0);
            }
            if half_carry {
                res = wrapping_add8(res, 0xFA, 0);
            }
        }
        cpu.registers.set_a(res);
        cpu.registers.f.set_flags(carry, n, false, res == 0);
        let new_pc: u16 = wrapping_add16(cpu.get_pc(), 1);
        cpu.update_pc_and_cycles(new_pc, 4);
    }

    pub fn cpl(cpu: &mut CPU)
        requires
            old(cpu).cycles + 4 <= u64::MAX,
        ensures
            cpl_post(*old(cpu), *final(cpu)),
    {
        let a: u8 = cpu.registers.get_a();
        let res: u8 = 255 - a;
        cpu.registers.set_a(res);
        let c: bool = cpu.registers.f.get_flag(C_FLAG);
        let z: bool = cpu.registers.f.get_flag(Z_FLAG);
        cpu.registers.f.set_flags(c, true, true, z);
        let new_pc: u16 = wrapping_add16(cpu.get_pc(), 1);
        cpu.update_pc_and_cycles(new_pc, 4);
    }

    pub fn scf(cpu: &mut CPU)
        requires
            old(cpu).cycles + 4 <= u64::MAX,
        ensures
            scf_post(*old(cpu), *final(cpu)),
    {
        let z: bool = cpu.registers.f.get_flag(Z_FLAG);
        cpu.registers.f.set_flags(true, false, false, z);
        let new_pc: u16 = wrapping_add16(cpu.get_pc(), 1);
        cpu.update_pc_and_cycles(new_pc, 4);
    }

    pub fn ccf(cpu: &mut CPU)
        requires
            old(cpu).cycles + 4 <= u64::MAX,
        ensures
            ccf_post(*old(cpu), *final(cpu)),
    {
        let z: bool = cpu.registers.f.get_flag(Z_FLAG);
        let carry: bool = !cpu.registers.f.get_flag(C_FLAG);
        cpu.registers.f.set_flags(carry, false, false, z);
        let new_pc: u16 = wrapping_add16(cpu.get_pc(), 1);
        cpu.update_pc_and_cycles(new_pc, 4);
    }

    pub fn jr_e8(cpu: &mut CPU, memory_bus: &MemoryBus)
        requires
            old(cpu).cycles + 12 <= u64::MAX,
            memory_bus.wf(),
        ensures
            jr_post(*old(cpu), *final(cpu), memory_bus.spec_read(wrap_add16(old(cpu).pc, 1))),
    {
        let offset_addr: u16 = wrapping_add16(cpu.get_pc(), 1);
        let offset: u8 = memory_bus.read(offset_addr);
        let new_pc: u16 = compute_jr_target(cpu.get_pc(), offset);
        cpu.update_pc_and_cycles(new_pc, 12);
    }

    pub fn jr_nz_e8(cpu: &mut CPU, memory_bus: &MemoryBus)
        requires
            old(cpu).cycles + 12 <= u64::MAX,
            memory_bus.wf(),
        ensures
            jr_cond_post(
                *old(cpu),
                *final(cpu),
                memory_bus.spec_read(wrap_add16(old(cpu).pc, 1)),
                !old(cpu).registers.f.z,
            ),
    {
        let z_flag: bool = cpu.registers.f.get_flag(Z_FLAG);
        if z_flag {
            let new_pc: u16 = wrapping_add16(cpu.get_pc(), 2);
            cpu.update_pc_and_cycles(new_pc, 8);
        } else {
            let offset_addr: u16 = wrapping_add16(cpu.get_pc(), 1);
            let offset: u8 = memory_bus.read(offset_addr);
            let new_pc: u16 = compute_jr_target(cpu.get_pc(), offset);
            cpu.update_pc_and_cycles(new_pc, 12);
        }
    }

    pub fn jr_z_n8(cpu: &mut CPU, memory_bus: &MemoryBus)
        requires
            old(cpu).cycles + 12 <= u64::MAX,
            memory_bus.wf(),
        ensures
            jr_cond_post(
                *old(cpu),
                *final(cpu),
                memory_bus.spec_read(wrap_add16(old(cpu).pc, 1)),
                old(cpu).registers.f.z,
            ),
    {
        let z_flag: bool = cpu.registers.f.get_flag(Z_FLAG);
        if z_flag {
            let offset_addr: u16 = wrapping_add16(cpu.get_pc(), 1);
            let offset: u8 = memory_bus.read(offset_addr);
            let new_pc: u16 = compute_jr_target(cpu.get_pc(), offset);
            cpu.update_pc_and_cycles(new_pc, 12);
        } else {
            let new_pc: u16 = wrapping_add16(cpu.get_pc(), 2);
            cpu.update_pc_and_cycles(new_pc, 8);
        }
    }

    pub fn jr_nc_e8(cpu: &mut CPU, memory_bus: &MemoryBus)
        requires
            old(cpu).cycles + 12 <= u64::MAX,
            memory_bus.wf(),
        ensures
            jr_cond_post(
                *old(cpu),
                *final(cpu),
                memory_bus.spec_read(wrap_add16(old(cpu).pc, 1)),
                !old(cpu).registers.f.c,
            ),
    {
        let c_flag: bool = cpu.registers.f.get_flag(C_FLAG);
        if !c_flag {
            let offset_addr: u16 = wrapping_add16(cpu.get_pc(), 1);
            let offset: u8 = memory_bus.read(offset_addr);
            let new_pc: u16 = compute_jr_target(cpu.get_pc(), offset);
            cpu.update_pc_and_cycles(new_pc, 12);
        } else {
            let new_pc: u16 = wrapping_add16(cpu.get_pc(), 2);
            cpu.update_pc_and_cycles(new_pc, 8);
        }
    }

    pub fn jr_c_e8(cpu: &mut CPU, memory_bus: &MemoryBus)
        requires
            old(cpu).cycles + 12 <= u64::MAX,
            memory_bus.wf(),
        ensures
            jr_cond_post(
                *old(cpu),
                *final(cpu),
                memory_bus.spec_read(wrap_add16(old(cpu).pc, 1)),
                old(cpu).registers.f.c,
            ),
    {
        let c_flag: bool = cpu.registers.f.get_flag(C_FLAG);
        if c_flag {
            let offset_addr: u16 = wrapping_add16(cpu.get_pc(), 1);
            let offset: u8 = memory_bus.read(offset_addr);
            let new_pc: u16 = compute_jr_target(cpu.get_pc(), offset);
            cpu.update_pc_and_cycles(new_pc, 12);
        } else {
            let new_pc: u16 = wrapping_add16(cpu.get_pc(), 2);
            cpu.update_pc_and_cycles(new_pc, 8);
        }
    }

    pub fn inc_hl_(cpu: &mut CPU, memory_bus: &mut MemoryBus) -> (r: Result<(), Fault>)
        requires
            old(cpu).cycles + 12 <= u64::MAX,
            old(memory_bus).wf(),
        ensures
            final(memory_bus).wf(),
            inc_hl_ind_post(*old(cpu), *final(cpu), *old(memory_bus), *final(memory_bus), r),
    {
        let address: u16 = cpu.registers.get_hl();
        if !MemoryBus::writable(address) {
            return Err(Fault::IllegalWrite(address));
        }
        let m: u8 = memory_bus.read(address);
        let res: u8 = wrapping_inc8(m);
        memory_bus.write(address, res);
        let c: bool = cpu.registers.f.get_flag(C_FLAG);
        let h: bool = m % 16 == 15;
        cpu.registers.f.set_flags(c, false, h, res == 0);
        let new_pc: u16 = wrapping_add16(cpu.get_pc(), 1);
        cpu.update_pc_and_cycles(new_pc, 12);
        Ok(())
    }

    pub fn dec_hl_(cpu: &mut CPU, memory_bus: &mut MemoryBus) -> (r: Result<(), Fault>)
        requires
            old(cpu).cycles + 12 <= u64::MAX,
            old(memory_bus).wf(),
        ensures
            final(memory_bus).wf(),
            dec_hl_ind_post(*old(cpu), *final(cpu), *old(memory_bus), *final(memory_bus), r),
    {
        let address: u16 = cpu.registers.get_hl();
        if !MemoryBus::writable(address) {
            return Err(Fault::IllegalWrite(address));
        }
        let m: u8 = memory_bus.read(address);
        let res: u8 = wrapping_dec8(m);
        memory_bus.write(address, res);
        let c: bool = cpu.registers.f.get_flag(C_FLAG);
        // Half-carry: the low nibble underflows when subtracting one.
        let h: bool = m % 16 == 0;
        cpu.registers.f.set_flags(c, true, h, res == 0);
        let new_pc: u16 = wrapping_add16(cpu.get_pc(), 1);
        cpu.update_pc_and_cycles(new_pc, 12);
        Ok(())
    }
}

} // verus!
