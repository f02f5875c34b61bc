//! Load instruction handlers: immediate loads, register-to-register moves,
//! and transfers between the accumulator and memory addressed through a
//! register pair.
//!
//! As in `control`, each handler's contract is a named predicate that the
//! decoder's contract reuses. Loads never touch the flags.

use vstd::prelude::*;
use crate::cpu::cpu::{advance, Fault, CPU};
use crate::cpu::register::{R8, RP};
use crate::memory_bus::memory_bus::MemoryBus;
use crate::utils::byte_utils::{
    dec16,
    format_u16,
    get_lsb_u16,
    get_msb_u16,
    inc16,
    wrap_add16,
    wrapping_add16,
    wrapping_dec16,
    wrapping_inc16,
};

verus! {

/// Load of a 16-bit immediate into a register pair: the low byte follows the
/// opcode, the high byte follows it; three bytes, twelve cycles.
pub open spec fn ld_rp_n16_post(c0: CPU, c1: CPU, b: MemoryBus, p: RP) -> bool {
    let lo = b.spec_read(wrap_add16(c0.pc, 1));
    let hi = b.spec_read(wrap_add16(c0.pc, 2));
    &&& advance(c0, c1, 3, 12)
    &&& c1.registers == c0.registers.spec_set_rp(p, (hi * 256 + lo) as u16)
}

/// Load of a 16-bit immediate into the stack pointer.
pub open spec fn ld_sp_n16_post(c0: CPU, c1: CPU, b: MemoryBus) -> bool {
    let lo = b.spec_read(wrap_add16(c0.pc, 1));
    let hi = b.spec_read(wrap_add16(c0.pc, 2));
    &&& c1.pc == wrap_add16(c0.pc, 3)
    &&& c1.cycles == c0.cycles + 12
    &&& c1.sp == (hi * 256 + lo) as u16
    &&& c1.is_running == c0.is_running
    &&& c1.registers == c0.registers
}

/// Store of the accumulator at the address held in a register pair. On a
/// writable address the byte lands there (and at its mirror, where one
/// exists); on a read-only address nothing changes and the fault names the
/// address.
pub open spec fn ld_at_rp_a_post(
    c0: CPU,
    c1: CPU,
    b0: MemoryBus,
    b1: MemoryBus,
    p: RP,
    r: Result<(), Fault>,
) -> bool {
    let addr = c0.registers.spec_rp(p);
    if MemoryBus::spec_writable(addr) {
        &&& r == Ok::<(), Fault>(())
        &&& MemoryBus::write_post(b0, b1, addr, c0.registers.a)
        &&& advance(c0, c1, 1, 8)
        &&& c1.registers == c0.registers
    } else {
        &&& r == Err::<(), Fault>(Fault::IllegalWrite(addr))
        &&& c1 == c0
        &&& b1 == b0
    }
}

/// Load of the accumulator from the address held in a register pair.
pub open spec fn ld_a_at_rp_post(c0: CPU, c1: CPU, b: MemoryBus, p: RP) -> bool {
    &&& advance(c0, c1, 1, 8)
    &&& c1.registers == c0.registers.spec_set_r8(R8::A, b.spec_read(c0.registers.spec_rp(p)))
}

/// Load of an 8-bit immediate (the byte after the opcode) into a register.
pub open spec fn ld_r8_n8_post(c0: CPU, c1: CPU, b: MemoryBus, r: R8) -> bool {
    &&& advance(c0, c1, 2, 8)
    &&& c1.registers == c0.registers.spec_set_r8(r, b.spec_read(wrap_add16(c0.pc, 1)))
}

/// Store of the stack pointer at a 16-bit immediate address: the low byte of
/// SP at the address, the high byte at the next address (wrapping). Both
/// addresses must be writable; otherwise nothing changes and the fault names
/// the first rejected address.
pub open spec fn ld_a16_sp_post(
    c0: CPU,
    c1: CPU,
    b0: MemoryBus,
    b1: MemoryBus,
    r: Result<(), Fault>,
) -> bool {
    let lo = b0.spec_read(wrap_add16(c0.pc, 1));
    let hi = b0.spec_read(wrap_add16(c0.pc, 2));
    let a16 = (hi * 256 + lo) as u16;
    let a2 = inc16(a16);
    if !MemoryBus::spec_writable(a16) {
        &&& r == Err::<(), Fault>(Fault::IllegalWrite(a16))
        &&& c1 == c0
        &&& b1 == b0
    } else if !MemoryBus::spec_writable(a2) {
        &&& r == Err::<(), Fault>(Fault::IllegalWrite(a2))
        &&& c1 == c0
        &&& b1 == b0
    } else {
        &&& r == Ok::<(), Fault>(())
        &&& advance(c0, c1, 3, 20)
        &&& c1.registers == c0.registers
        &&& forall|x: u16|
            b1.spec_read(x) == (if MemoryBus::alias(x) == MemoryBus::alias(a2) {
                (c0.sp / 256) as u8
            } else if MemoryBus::alias(x) == MemoryBus::alias(a16) {
                (c0.sp % 256) as u8
            } else {
                b0.spec_read(x)
            })
    }
}

/// Store of the accumulator at address HL, then HL is incremented (wrapping).
pub open spec fn ld_hl_plus_a_post(
    c0: CPU,
    c1: CPU,
    b0: MemoryBus,
    b1: MemoryBus,
    r: Result<(), Fault>,
) -> bool {
    let addr = c0.registers.spec_hl();
    if MemoryBus::spec_writable(addr) {
        &&& r == Ok::<(), Fault>(())
        &&& MemoryBus::write_post(b0, b1, addr, c0.registers.a)
        &&& advance(c0, c1, 1, 8)
        &&& c1.registers == c0.registers.spec_set_hl(inc16(addr))
    } else {
        &&& r == Err::<(), Fault>(Fault::IllegalWrite(addr))
        &&& c1 == c0
        &&& b1 == b0
    }
}

/// Store of the accumulator at address HL, then HL is decremented (wrapping).
pub open spec fn ld_hl_minus_a_post(
    c0: CPU,
    c1: CPU,
    b0: MemoryBus,
    b1: MemoryBus,
    r: Result<(), Fault>,
) -> bool {
    let addr = c0.registers.spec_hl();
    if MemoryBus::spec_writable(addr) {
        &&& r == Ok::<(), Fault>(())
        &&& MemoryBus::write_post(b0, b1, addr, c0.registers.a)
        &&& advance(c0, c1, 1, 8)
        &&& c1.registers == c0.registers.spec_set_hl(dec16(addr))
    } else {
        &&& r == Err::<(), Fault>(Fault::IllegalWrite(addr))
        &&& c1 == c0
        &&& b1 == b0
    }
}

/// Load of the accumulator from address HL, then HL is incremented.
pub open spec fn ld_a_hl_plus_post(c0: CPU, c1: CPU, b: MemoryBus) -> bool {
    let addr = c0.registers.spec_hl();
    &&& advance(c0, c1, 1, 8)
    &&& c1.registers == c0.registers.spec_set_r8(R8::A, b.spec_read(addr)).spec_set_hl(
        inc16(addr),
    )
}

/// Load of the accumulator from address HL, then HL is decremented.
pub open spec fn ld_a_hl_minus_post(c0: CPU, c1: CPU, b: MemoryBus) -> bool {
    let addr = c0.registers.spec_hl();
    &&& advance(c0, c1, 1, 8)
    &&& c1.registers == c0.registers.spec_set_r8(R8::A, b.spec_read(addr)).spec_set_hl(
        dec16(addr),
    )
}

/// Store of an 8-bit immediate at address HL; two bytes, twelve cycles.
pub open spec fn ld_hl_n8_post(
    c0: CPU,
    c1: CPU,
    b0: MemoryBus,
    b1: MemoryBus,
    r: Result<(), Fault>,
) -> bool {
    let v = b0.spec_read(wrap_add16(c0.pc, 1));
    let addr = c0.registers.spec_hl();
    if MemoryBus::spec_writable(addr) {
        &&& r == Ok::<(), Fault>(())
        &&& MemoryBus::write_post(b0, b1, addr, v)
        &&& advance(c0, c1, 2, 12)
        &&& c1.registers == c0.registers
    } else {
        &&& r == Err::<(), Fault>(Fault::IllegalWrite(addr))
        &&& c1 == c0
        &&& b1 == b0
    }
}

/// Register-to-register move; one byte, four cycles, flags untouched.
pub open spec fn ld_r8_r8_post(c0: CPU, c1: CPU, dst: R8, src: R8) -> bool {
    &&& advance(c0, c1, 1, 4)
    &&& c1.registers == c0.registers.spec_set_r8(dst, c0.registers.spec_r8(src))
}

/// Store of a register at address HL; one byte, eight cycles.
pub open spec fn ld_hl_r_post(
    c0: CPU,
    c1: CPU,
    b0: MemoryBus,
    b1: MemoryBus,
    src: R8,
    r: Result<(), Fault>,
) -> bool {
    let addr = c0.registers.spec_hl();
    if MemoryBus::spec_writable(addr) {
        &&& r == Ok::<(), Fault>(())
        &&& MemoryBus::write_post(b0, b1, addr, c0.registers.spec_r8(src))
        &&& advance(c0, c1, 1, 8)
        &&& c1.registers == c0.registers
    } else {
        &&& r == Err::<(), Fault>(Fault::IllegalWrite(addr))
        &&& c1 == c0
        &&& b1 == b0
    }
}

/// Load of a register from address HL; one byte, eight cycles.
pub open spec fn ld_r_hl_post(c0: CPU, c1: CPU, b: MemoryBus, dst: R8) -> bool {
    &&& advance(c0, c1, 1, 8)
    &&& c1.registers == c0.registers.spec_set_r8(dst, b.spec_read(c0.registers.spec_hl()))
}

pub struct LD;

impl LD {
    /// Shared body of the 16-bit immediate loads into a register pair.
    fn ld_rp_n16(cpu: &mut CPU, memory_bus: &MemoryBus, p: RP)
        requires
            old(cpu).cycles + 12 <= u64::MAX,
            memory_bus.wf(),
        ensures
            ld_rp_n16_post(*old(cpu), *final(cpu), *memory_bus, p),
    {
        let low_byte: u8 = memory_bus.read(wrapping_add16(cpu.get_pc(), 1));
        let high_byte: u8 = memory_bus.read(wrapping_add16(cpu.get_pc(), 2));
        cpu.registers.set_rp(p, format_u16(high_byte, low_byte));
        let new_pc: u16 = wrapping_add16(cpu.get_pc(), 3);
        cpu.update_pc_and_cycles(new_pc, 12);
    }

    pub fn ld_bc_n16(cpu: &mut CPU, memory_bus: &MemoryBus)
        requires
            old(cpu).cycles + 12 <= u64::MAX,
            memory_bus.wf(),
        ensures
            ld_rp_n16_post(*old(cpu), *final(cpu), *memory_bus, RP::BC),
    {
        Self::ld_rp_n16(cpu, memory_bus, RP::BC)
    }

    pub fn ld_de_n16(cpu: &mut CPU, memory_bus: &MemoryBus)
        requires
            old(cpu).cycles + 12 <= u64::MAX,
            memory_bus.wf(),
        ensures
            ld_rp_n16_post(*old(cpu), *final(cpu), *memory_bus, RP::DE),
    {
        Self::ld_rp_n16(cpu, memory_bus, RP::DE)
    }

    pub fn ld_hl_n16(cpu: &mut CPU, memory_bus: &MemoryBus)
        requires
            old(cpu).cycles + 12 <= u64::MAX,
            memory_bus.wf(),
        ensures
            ld_rp_n16_post(*old(cpu), *final(cpu), *memory_bus, RP::HL),
    {
        Self::ld_rp_n16(cpu, memory_bus, RP::HL)
    }

    pub fn ld_sp_n16(cpu: &mut CPU, memory_bus: &MemoryBus)
        requires
            old(cpu).cycles + 12 <= u64::MAX,
            memory_bus.wf(),
        ensures
            ld_sp_n16_post(*old(cpu), *final(cpu), *memory_bus),
    {
        let low_byte: u8 = memory_bus.read(wrapping_add16(cpu.get_pc(), 1));
        let high_byte: u8 = memory_bus.read(wrapping_add16(cpu.get_pc(), 2));
        cpu.set_sp(format_u16(high_byte, low_byte));
        let new_pc: u16 = wrapping_add16(cpu.get_pc(), 3);
        cpu.update_pc_and_cycles(new_pc, 12);
    }

    /// Shared body of the accumulator stores through a register pair.
    fn ld_at_rp_a(cpu: &mut CPU, memory_bus: &mut MemoryBus, p: RP) -> (r: Result<(), Fault>)
        requires
            old(cpu).cycles + 8 <= u64::MAX,
            old(memory_bus).wf(),
        ensures
            final(memory_bus).wf(),
            ld_at_rp_a_post(*old(cpu), *final(cpu), *old(memory_bus), *final(memory_bus), p, r),
    {
        let address: u16 = cpu.registers.get_rp(p);
        if !MemoryBus::writable(address) {
            return Err(Fault::IllegalWrite(address));
        }
        let a: u8 = cpu.registers.get_a();
        memory_bus.write(address, a);
        let new_pc: u16 = wrapping_add16(cpu.get_pc(), 1);
        cpu.update_pc_and_cycles(new_pc, 8);
        Ok(())
    }

    pub fn ld_bc_a(cpu: &mut CPU, memory_bus: &mut MemoryBus) -> (r: Result<(), Fault>)
        requires
            old(cpu).cycles + 8 <= u64::MAX,
            old(memory_bus).wf(),
        ensures
            final(memory_bus).wf(),
            ld_at_rp_a_post(
                *old(cpu),
                *final(cpu),
                *old(memory_bus),
                *final(memory_bus),
                RP::BC,
                r,
            ),
    {
        Self::ld_at_rp_a(cpu, memory_bus, RP::BC)
    }

    pub fn ld_de_a(cpu: &mut CPU, memory_bus: &mut MemoryBus) -> (r: Result<(), Fault>)
        requires
            old(cpu).cycles + 8 <= u64::MAX,
            old(memory_bus).wf(),
        ensures
            final(memory_bus).wf(),
            ld_at_rp_a_post(
                *old(cpu),
                *final(cpu),
                *old(memory_bus),
                *final(memory_bus),
                RP::DE,
                r,
            ),
    {
        Self::ld_at_rp_a(cpu, memory_bus, RP::DE)
    }

    /// Shared body of the accumulator loads through a register pair.
    fn ld_a_at_rp(cpu: &mut CPU, memory_bus: &MemoryBus, p: RP)
        requires
            old(cpu).cycles + 8 <= u64::MAX,
            memory_bus.wf(),
        ensures
            ld_a_at_rp_post(*old(cpu), *final(cpu), *memory_bus, p),
    {
        let address: u16 = cpu.registers.get_rp(p);
        let value: u8 = memory_bus.read(address);
        cpu.registers.set_a(value);
        let new_pc: u16 = wrapping_add16(cpu.get_pc(), 1);
        cpu.update_pc_and_cycles(new_pc, 8);
    }

    pub fn ld_a_bc(cpu: &mut CPU, memory_bus: &MemoryBus)
        requires
            old(cpu).cycles + 8 <= u64::MAX,
            memory_bus.wf(),
        ensures
            ld_a_at_rp_post(*old(cpu), *final(cpu), *memory_bus, RP::BC),
    {
        Self::ld_a_at_rp(cpu, memory_bus, RP::BC)
    }

    pub fn ld_a_de(cpu: &mut CPU, memory_bus: &MemoryBus)
        requires
            old(cpu).cycles + 8 <= u64::MAX,
            memory_bus.wf(),
        ensures
            ld_a_at_rp_post(*old(cpu), *final(cpu), *memory_bus, RP::DE),
    {
        Self::ld_a_at_rp(cpu, memory_bus, RP::DE)
    }

    /// Shared body of the 8-bit immediate loads.
    fn ld_r8_n8(cpu: &mut CPU, memory_bus: &MemoryBus, r: R8)
        requires
            old(cpu).cycles + 8 <= u64::MAX,
            memory_bus.wf(),
        ensures
            ld_r8_n8_post(*old(cpu), *final(cpu), *memory_bus, r),
    {
        let value: u8 = memory_bus.read(wrapping_add16(cpu.get_pc(), 1));
        cpu.registers.set_r8(r, value);
        let new_pc: u16 = wrapping_add16(cpu.get_pc(), 2);
        cpu.update_pc_and_cycles(new_pc, 8);
    }

    pub fn ld_b_n8(cpu: &mut CPU, memory_bus: &MemoryBus)
        requires
            old(cpu).cycles + 8 <= u64::MAX,
            memory_bus.wf(),
        ensures
            ld_r8_n8_post(*old(cpu), *final(cpu), *memory_bus, R8::B),
    {
        Self::ld_r8_n8(cpu, memory_bus, R8::B)
    }

    pub fn ld_c_n8(cpu: &mut CPU, memory_bus: &MemoryBus)
        requires
            old(cpu).cycles + 8 <= u64::MAX,
            memory_bus.wf(),
        ensures
            ld_r8_n8_post(*old(cpu), *final(cpu), *memory_bus, R8::C),
    {
        Self::ld_r8_n8(cpu, memory_bus, R8::C)
    }

    pub fn ld_d_n8(cpu: &mut CPU, memory_bus: &MemoryBus)
        requires
            old(cpu).cycles + 8 <= u64::MAX,
            memory_bus.wf(),
        ensures
            ld_r8_n8_post(*old(cpu), *final(cpu), *memory_bus, R8::D),
    {
        Self::ld_r8_n8(cpu, memory_bus, R8::D)
    }

    pub fn ld_e_n8(cpu: &mut CPU, memory_bus: &MemoryBus)
        requires
            old(cpu).cycles + 8 <= u64::MAX,
            memory_bus.wf(),
        ensures
            ld_r8_n8_post(*old(cpu), *final(cpu), *memory_bus, R8::E),
    {
        Self::ld_r8_n8(cpu, memory_bus, R8::E)
    }

    pub fn ld_h_n8(cpu: &mut CPU, memory_bus: &MemoryBus)
        requires
            old(cpu).cycles + 8 <= u64::MAX,
            memory_bus.wf(),
        ensures
            ld_r8_n8_post(*old(cpu), *final(cpu), *memory_bus, R8::H),
    {
        Self::ld_r8_n8(cpu, memory_bus, R8::H)
    }

    pub fn ld_l_n8(cpu: &mut CPU, memory_bus: &MemoryBus)
        requires
            old(cpu).cycles + 8 <= u64::MAX,
            memory_bus.wf(),
        ensures
            ld_r8_n8_post(*old(cpu), *final(cpu), *memory_bus, R8::L),
    {
        Self::ld_r8_n8(cpu, memory_bus, R8::L)
    }

    pub fn ld_a_n8(cpu: &mut CPU, memory_bus: &MemoryBus)
        requires
            old(cpu).cycles + 8 <= u64::MAX,
            memory_bus.wf(),
        ensures
            ld_r8_n8_post(*old(cpu), *final(cpu), *memory_bus, R8::A),
    {
        Self::ld_r8_n8(cpu, memory_bus, R8::A)
    }

    pub fn ld_a16_sp(cpu: &mut CPU, memory_bus: &mut MemoryBus) -> (r: Result<(), Fault>)
        requires
            old(cpu).cycles + 20 <= u64::MAX,
            old(memory_bus).wf(),
        ensures
            final(memory_bus).wf(),
            ld_a16_sp_post(*old(cpu), *final(cpu), *old(memory_bus), *final(memory_bus), r),
    {
        let a_low_byte: u8 = memory_bus.read(wrapping_add16(cpu.get_pc(), 1));
        let a_high_byte: u8 = memory_bus.read(wrapping_add16(cpu.get_pc(), 2));
        let a16: u16 = format_u16(a_high_byte, a_low_byte);
        let a2: u16 = wrapping_inc16(a16);
        if !MemoryBus::writable(a16) {
            return Err(Fault::IllegalWrite(a16));
        }
        if !MemoryBus::writable(a2) {
            return Err(Fault::IllegalWrite(a2));
        }
        let sp_lsb: u8 = get_lsb_u16(cpu.get_sp());
        let sp_msb: u8 = get_msb_u16(cpu.get_sp());
        memory_bus.write(a16, sp_lsb);
        memory_bus.write(a2, sp_msb);
        let new_pc: u16 = wrapping_add16(cpu.get_pc(), 3);
        cpu.update_pc_and_cycles(new_pc, 20);
        Ok(())
    }

    pub fn ld_hl_plus_a(cpu: &mut CPU, memory_bus: &mut MemoryBus) -> (r: Result<(), Fault>)
        requires
            old(cpu).cycles + 8 <= u64::MAX,
            old(memory_bus).wf(),
        ensures
            final(memory_bus).wf(),
            ld_hl_plus_a_post(*old(cpu), *final(cpu), *old(memory_bus), *final(memory_bus), r),
    {
        let hl: u16 = cpu.registers.get_hl();
        if !MemoryBus::writable(hl) {
            return Err(Fault::IllegalWrite(hl));
        }
        let a: u8 = cpu.registers.get_a();
        memory_bus.write(hl, a);
        cpu.registers.set_hl(wrapping_inc16(hl));
        let new_pc: u16 = wrapping_add16(cpu.get_pc(), 1);
        cpu.update_pc_and_cycles(new_pc, 8);
        Ok(())
    }

    pub fn ld_hl_minus_a(cpu: &mut CPU, memory_bus: &mut MemoryBus) -> (r: Result<(), Fault>)
        requires
            old(cpu).cycles + 8 <= u64::MAX,
            old(memory_bus).wf(),
        ensures
            final(memory_bus).wf(),
            ld_hl_minus_a_post(*old(cpu), *final(cpu), *old(memory_bus), *final(memory_bus), r),
    {
        let hl: u16 = cpu.registers.get_hl();
        if !MemoryBus::writable(hl) {
            return Err(Fault::IllegalWrite(hl));
        }
        let a: u8 = cpu.registers.get_a();
        memory_bus.write(hl, a);
        cpu.registers.set_hl(wrapping_dec16(hl));
        let new_pc: u16 = wrapping_add16(cpu.get_pc(), 1);
        cpu.update_pc_and_cycles(new_pc, 8);
        Ok(())
    }

    pub fn ld_a_hl_plus(cpu: &mut CPU, memory_bus: &MemoryBus)
        requires
            old(cpu).cycles + 8 <= u64::MAX,
            memory_bus.wf(),
        ensures
            ld_a_hl_plus_post(*old(cpu), *final(cpu), *memory_bus),
    {
        let hl: u16 = cpu.registers.get_hl();
        let value: u8 = memory_bus.read(hl);
        cpu.registers.set_a(value);
        cpu.registers.set_hl(wrapping_inc16(hl));
        let new_pc: u16 = wrapping_add16(cpu.get_pc(), 1);
        cpu.update_pc_and_cycles(new_pc, 8);
    }

    pub fn ld_a_hl_minus(cpu: &mut CPU, memory_bus: &MemoryBus)
        requires
            old(cpu).cycles + 8 <= u64::MAX,
            memory_bus.wf(),
        ensures
            ld_a_hl_minus_post(*old(cpu), *final(cpu), *memory_bus),
    {
        let hl: u16 = cpu.registers.get_hl();
        let value: u8 = memory_bus.read(hl);
        cpu.registers.set_a(value);
        cpu.registers.set_hl(wrapping_dec16(hl));
        let new_pc: u16 = wrapping_add16(cpu.get_pc(), 1);
        cpu.update_pc_and_cycles(new_pc, 8);
    }

    pub fn ld_hl_n8(cpu: &mut CPU, memory_bus: &mut MemoryBus) -> (r: Result<(), Fault>)
        requires
            old(cpu).cycles + 12 <= u64::MAX,
            old(memory_bus).wf(),
        ensures
            final(memory_bus).wf(),
            ld_hl_n8_post(*old(cpu), *final(cpu), *old(memory_bus), *final(memory_bus), r),
    {
        let hl: u16 = cpu.registers.get_hl();
        if !MemoryBus::writable(hl) {
            return Err(Fault::IllegalWrite(hl));
        }
        let value: u8 = memory_bus.read(wrapping_add16(cpu.get_pc(), 1));
        memory_bus.write(hl, value);
        let new_pc: u16 = wrapping_add16(cpu.get_pc(), 2);
        cpu.update_pc_and_cycles(new_pc, 12);
        Ok(())
    }

    /// Register-to-register move, with the two registers named by the
    /// decoded row and column fields of the opcode.
    pub fn ld_r8_r8(cpu: &mut CPU, dst: R8, src: R8)
        requires
            old(cpu).cycles + 4 <= u64::MAX,
        ensures
            ld_r8_r8_post(*old(cpu), *final(cpu), dst, src),
    {
        let value: u8 = cpu.registers.get_r8(src);
        cpu.registers.set_r8(dst, value);
        let new_pc: u16 = wrapping_add16(cpu.get_pc(), 1);
        cpu.update_pc_and_cycles(new_pc, 4);
    }

    /// Store of the register named `src` at address HL.
    pub fn ld_hl_r(cpu: &mut CPU, memory_bus: &mut MemoryBus, src: R8) -> (r: Result<(), Fault>)
        requires
            old(cpu).cycles + 8 <= u64::MAX,
            old(memory_bus).wf(),
        ensures
            final(memory_bus).wf(),
            ld_hl_r_post(*old(cpu), *final(cpu), *old(memory_bus), *final(memory_bus), src, r),
    {
        let hl: u16 = cpu.registers.get_hl();
        if !MemoryBus::writable(hl) {
            return Err(Fault::IllegalWrite(hl));
        }
        let value: u8 = cpu.registers.get_r8(src);
        memory_bus.write(hl, value);
        let new_pc: u16 = wrapping_add16(cpu.get_pc(), 1);
        cpu.update_pc_and_cycles(new_pc, 8);
        Ok(())
    }

    /// Load of the register named `dst` from address HL.
    pub fn ld_r_hl(cpu: &mut CPU, memory_bus: &MemoryBus, dst: R8)
        requires
            old(cpu).cycles + 8 <= u64::MAX,
            memory_bus.wf(),
        ensures
            ld_r_hl_post(*old(cpu), *final(cpu), *memory_bus, dst),
    {
        let hl: u16 = cpu.registers.get_hl();
        let value: u8 = memory_bus.read(hl);
        cpu.registers.set_r8(dst, value);
        let new_pc: u16 = wrapping_add16(cpu.get_pc(), 1);
        cpu.update_pc_and_cycles(new_pc, 8);
    }
}

} // verus!
