//! The processor core: program counter, stack pointer, register file, cycle
//! counter and running flag, with the fetch-decode-execute entry point.

use vstd::prelude::*;
use crate::cpu::register::{spec_r8_sel, r8_from_index, Register, R8, RP};
use crate::cpu::flag::Flag;
use crate::cpu::control::{
    add_hl_post,
    ccf_post,
    cpl_post,
    daa_post,
    dec_hl_ind_post,
    dec_r8_post,
    dec_rp_post,
    dec_sp_post,
    inc_hl_ind_post,
    inc_r8_post,
    inc_rp_post,
    inc_sp_post,
    jr_cond_post,
    jr_post,
    nop_post,
    rla_post,
    rlca_post,
    rra_post,
    rrca_post,
    scf_post,
    stop_post,
    Control,
};
use crate::cpu::ld::{
    ld_a16_sp_post,
    ld_a_at_rp_post,
    ld_a_hl_minus_post,
    ld_a_hl_plus_post,
    ld_at_rp_a_post,
    ld_hl_minus_a_post,
    ld_hl_n8_post,
    ld_hl_plus_a_post,
    ld_hl_r_post,
    ld_r8_n8_post,
    ld_r8_r8_post,
    ld_r_hl_post,
    ld_rp_n16_post,
    ld_sp_n16_post,
    LD,
};
use crate::memory_bus::memory_bus::MemoryBus;
use crate::utils::byte_utils::wrap_add16;

verus! {

/// A fatal emulation fault. Executing further would desynchronize the
/// emulated machine from the hardware it models, so the caller is expected
/// to stop rather than recover.
#[derive(Clone, Copy, Debug, PartialEq, Eq, Structural)]
pub enum Fault {
    /// The fetched opcode maps to no implemented handler.
    UnimplementedOpcode(u8),
    /// An instruction tried to store at an address the bus rejects writes
    /// at: the ROM or the unusable region.
    IllegalWrite(u16),
}

/// The processor state.
pub struct CPU {
    pub pc: u16,
    pub sp: u16,
    pub registers: Register,
    pub cycles: u64,
    pub is_running: bool,
}

/// One instruction's bookkeeping: the program counter advanced by the
/// instruction's byte length (wrapping modulo 2^16), the cycle counter grown
/// by its cost, and the stack pointer and running flag untouched.
pub open spec fn advance(c0: CPU, c1: CPU, len: u16, cycles: u64) -> bool {
    &&& c1.pc == wrap_add16(c0.pc, len)
    &&& c1.cycles == c0.cycles + cycles
    &&& c1.sp == c0.sp
    &&& c1.is_running == c0.is_running
}

/// An instruction that leaves the bus untouched and cannot fault, together
/// with its effect `post` on the processor state.
pub open spec fn pure_instr(b0: MemoryBus, b1: MemoryBus, r: Result<(), Fault>, post: bool) -> bool {
    &&& r == Ok::<(), Fault>(())
    &&& b1 == b0
    &&& post
}

/// What executing the single instruction `opcode` does, as a relation
/// between the processor and bus states before (`c0`, `b0`) and after
/// (`c1`, `b1`), and the handler's result `r`.
///
/// The opcode is decomposed by the classic octal scheme: the two top bits
/// select a block, the three middle bits a row, the three low bits a column.
/// Block 0 holds the implemented control, load and 16-bit arithmetic
/// instructions; block 1 is the unified 8-bit load block, where row or
/// column value 6 names the memory-indirect operand at HL (row and column
/// both 6 is not a load and is unimplemented). Blocks 2 and 3 are not
/// implemented: there the handler reports the opcode as unimplemented and
/// changes nothing.
pub open spec fn instruction_post(
    opcode: u8,
    c0: CPU,
    c1: CPU,
    b0: MemoryBus,
    b1: MemoryBus,
    r: Result<(), Fault>,
) -> bool {
    let x = opcode / 64;
    let y = (opcode / 8) % 8;
    let z = opcode % 8;
    let off = b0.spec_read(wrap_add16(c0.pc, 1));
    if x == 0 {
        match (y, z) {
            (0, 0) => pure_instr(b0, b1, r, nop_post(c0, c1)),
            (0, 1) => pure_instr(b0, b1, r, ld_rp_n16_post(c0, c1, b0, RP::BC)),
            (0, 2) => ld_at_rp_a_post(c0, c1, b0, b1, RP::BC, r),
            (0, 3) => pure_instr(b0, b1, r, inc_rp_post(c0, c1, RP::BC)),
            (0, 4) => pure_instr(b0, b1, r, inc_r8_post(c0, c1, R8::B)),
            (0, 5) => pure_instr(b0, b1, r, dec_r8_post(c0, c1, R8::B)),
            (0, 6) => pure_instr(b0, b1, r, ld_r8_n8_post(c0, c1, b0, R8::B)),
            (0, 7) => pure_instr(b0, b1, r, rlca_post(c0, c1)),
            (1, 0) => ld_a16_sp_post(c0, c1, b0, b1, r),
            (1, 1) => pure_instr(b0, b1, r, add_hl_post(c0, c1, c0.registers.spec_bc())),
            (1, 2) => pure_instr(b0, b1, r, ld_a_at_rp_post(c0, c1, b0, RP::BC)),
            (1, 3) => pure_instr(b0, b1, r, dec_rp_post(c0, c1, RP::BC)),
            (1, 4) => pure_instr(b0, b1, r, inc_r8_post(c0, c1, R8::C)),
            (1, 5) => pure_instr(b0, b1, r, dec_r8_post(c0, c1, R8::C)),
            (1, 6) => pure_instr(b0, b1, r, ld_r8_n8_post(c0, c1, b0, R8::C)),
            (1, 7) => pure_instr(b0, b1, r, rrca_post(c0, c1)),
            (2, 0) => pure_instr(b0, b1, r, stop_post(c0, c1)),
            (2, 1) => pure_instr(b0, b1, r, ld_rp_n16_post(c0, c1, b0, RP::DE)),
            (2, 2) => ld_at_rp_a_post(c0, c1, b0, b1, RP::DE, r),
            (2, 3) => pure_instr(b0, b1, r, inc_rp_post(c0, c1, RP::DE)),
            (2, 4) => pure_instr(b0, b1, r, inc_r8_post(c0, c1, R8::D)),
            (2, 5) => pure_instr(b0, b1, r, dec_r8_post(c0, c1, R8::D)),
            (2, 6) => pure_instr(b0, b1, r, ld_r8_n8_post(c0, c1, b0, R8::D)),
            (2, 7) => pure_instr(b0, b1, r, rla_post(c0, c1)),
            (3, 0) => pure_instr(b0, b1, r, jr_post(c0, c1, off)),
            (3, 1) => pure_instr(b0, b1, r, add_hl_post(c0, c1, c0.registers.spec_de())),
            (3, 2) => pure_instr(b0, b1, r, ld_a_at_rp_post(c0, c1, b0, RP::DE)),
            (3, 3) => pure_instr(b0, b1, r, dec_rp_post(c0, c1, RP::DE)),
            (3, 4) => pure_instr(b0, b1, r, inc_r8_post(c0, c1, R8::E)),
            (3, 5) => pure_instr(b0, b1, r, dec_r8_post(c0, c1, R8::E)),
            (3, 6) => pure_instr(b0, b1, r, ld_r8_n8_post(c0, c1, b0, R8::E)),
            (3, 7) => pure_instr(b0, b1, r, rra_post(c0, c1)),
            (4, 0) => pure_instr(b0, b1, r, jr_cond_post(c0, c1, off, !c0.registers.f.z)),
            (4, 1) => pure_instr(b0, b1, r, ld_rp_n16_post(c0, c1, b0, RP::HL)),
            (4, 2) => ld_hl_plus_a_post(c0, c1, b0, b1, r),
            (4, 3) => pure_instr(b0, b1, r, inc_rp_post(c0, c1, RP::HL)),
            (4, 4) => pure_instr(b0, b1, r, inc_r8_post(c0, c1, R8::H)),
            (4, 5) => pure_instr(b0, b1, r, dec_r8_post(c0, c1, R8::H)),
            (4, 6) => pure_instr(b0, b1, r, ld_r8_n8_post(c0, c1, b0, R8::H)),
            (4, 7) => pure_instr(b0, b1, r, daa_post(c0, c1)),
            (5, 0) => pure_instr(b0, b1, r, jr_cond_post(c0, c1, off, c0.registers.f.z)),
            (5, 1) => pure_instr(b0, b1, r, add_hl_post(c0, c1, c0.registers.spec_hl())),
            (5, 2) => pure_instr(b0, b1, r, ld_a_hl_plus_post(c0, c1, b0)),
            (5, 3) => pure_instr(b0, b1, r, dec_rp_post(c0, c1, RP::HL)),
            (5, 4) => pure_instr(b0, b1, r, inc_r8_post(c0, c1, R8::L)),
            (5, 5) => pure_instr(b0, b1, r, dec_r8_post(c0, c1, R8::L)),
            (5, 6) => pure_instr(b0, b1, r, ld_r8_n8_post(c0, c1, b0, R8::L)),
            (5, 7) => pure_instr(b0, b1, r, cpl_post(c0, c1)),
            (6, 0) => pure_instr(b0, b1, r, jr_cond_post(c0, c1, off, !c0.registers.f.c)),
            (6, 1) => pure_instr(b0, b1, r, ld_sp_n16_post(c0, c1, b0)),
            (6, 2) => ld_hl_minus_a_post(c0, c1, b0, b1, r),
            (6, 3) => pure_instr(b0, b1, r, inc_sp_post(c0, c1)),
            (6, 4) => inc_hl_ind_post(c0, c1, b0, b1, r),
            (6, 5) => dec_hl_ind_post(c0, c1, b0, b1, r),
            (6, 6) => ld_hl_n8_post(c0, c1, b0, b1, r),
            (6, 7) => pure_instr(b0, b1, r, scf_post(c0, c1)),
            (7, 0) => pure_instr(b0, b1, r, jr_cond_post(c0, c1, off, c0.registers.f.c)),
            (7, 1) => pure_instr(b0, b1, r, add_hl_post(c0, c1, c0.sp)),
            (7, 2) => pure_instr(b0, b1, r, ld_a_hl_minus_post(c0, c1, b0)),
            (7, 3) => pure_instr(b0, b1, r, dec_sp_post(c0, c1)),
            (7, 4) => pure_instr(b0, b1, r, inc_r8_post(c0, c1, R8::A)),
            (7, 5) => pure_instr(b0, b1, r, dec_r8_post(c0, c1, R8::A)),
            (7, 6) => pure_instr(b0, b1, r, ld_r8_n8_post(c0, c1, b0, R8::A)),
            (7, 7) => pure_instr(b0, b1, r, ccf_post(c0, c1)),
            _ => false,
        }
    } else if x == 1 {
        if y == 6 && z == 6 {
            &&& r == Err::<(), Fault>(Fault::UnimplementedOpcode(opcode))
            &&& c1 == c0
            &&& b1 == b0
        } else if y == 6 {
            ld_hl_r_post(c0, c1, b0, b1, spec_r8_sel(z), r)
        } else if z == 6 {
            pure_instr(b0, b1, r, ld_r_hl_post(c0, c1, b0, spec_r8_sel(y)))
        } else {
            pure_instr(b0, b1, r, ld_r8_r8_post(c0, c1, spec_r8_sel(y), spec_r8_sel(z)))
        }
    } else {
        &&& r == Err::<(), Fault>(Fault::UnimplementedOpcode(opcode))
        &&& c1 == c0
        &&& b1 == b0
    }
}

impl CPU {
    pub fn new() -> (r: CPU)
        ensures
            r == (CPU {
                pc: 0,
                sp: 0,
                registers: Register {
                    a: 0,
                    b: 0,
                    c: 0,
                    d: 0,
                    e: 0,
                    f: Flag { c: false, n: false, h: false, z: false },
                    h: 0,
                    l: 0,
                },
                cycles: 0,
                is_running: true,
            }),
    {
        CPU { pc: 0, sp: 0, registers: Register::new(), cycles: 0, is_running: true }
    }

    pub fn set_running(&mut self, is_running: bool)
        ensures
            *final(self) == (CPU { is_running, ..*old(self) }),
    {
        self.is_running = is_running;
    }

    pub fn get_pc(&self) -> (r: u16)
        ensures
            r == self.pc,
    {
        self.pc
    }

    pub fn get_sp(&self) -> (r: u16)
        ensures
            r == self.sp,
    {
        self.sp
    }

    pub fn get_registers(&mut self) -> (r: &mut Register)
        ensures
            *r == old(self).registers,
            *final(self) == (CPU { registers: *final(r), ..*old(self) }),
    {
        &mut self.registers
    }

    pub fn change_pc(&mut self, new_pc: u16)
        ensures
            *final(self) == (CPU { pc: new_pc, ..*old(self) }),
    {
        self.pc = new_pc;
    }

    pub fn set_sp(&mut self, new_sp: u16)
        ensures
            *final(self) == (CPU { sp: new_sp, ..*old(self) }),
    {
        self.sp = new_sp;
    }

    /// Grows the monotonically increasing cycle counter.
    pub fn add_cycles(&mut self, c: u64)
        requires
            old(self).cycles + c <= u64::MAX,
        ensures
            final(self).cycles == old(self).cycles + c,
            *final(self) == (CPU { cycles: final(self).cycles, ..*old(self) }),
    {
        self.cycles = self.cycles + c;
    }

    /// The one way a handler commits its program-counter advance and cycle
    /// cost, as a single atomic state update.
    pub fn update_pc_and_cycles(&mut self, pc: u16, cycles: u64)
        requires
            old(self).cycles + cycles <= u64::MAX,
        ensures
            final(self).pc == pc,
            final(self).cycles == old(self).cycles + cycles,
            final(self).sp == old(self).sp,
            final(self).registers == old(self).registers,
            final(self).is_running == old(self).is_running,
    {
        self.pc = pc;
        self.cycles = self.cycles + cycles;
    }

    /// Fetches the byte at the program counter and executes it as one
    /// instruction. A fault means the machine would desynchronize: nothing
    /// was changed, and the caller is expected to stop.
    pub fn step(&mut self, bus: &mut MemoryBus) -> (r: Result<(), Fault>)
        requires
            old(self).cycles + 20 <= u64::MAX,
            old(bus).wf(),
        ensures
            final(bus).wf(),
            instruction_post(
                old(bus).spec_read(old(self).pc),
                *old(self),
                *final(self),
                *old(bus),
                *final(bus),
                r,
            ),
    {
        let pc: u16 = self.get_pc();
        let opcode: u8 = bus.read(pc);
        self.decode(opcode, bus)
    }

    /// Decomposes `opcode` into its block, row and column fields and
    /// dispatches to the one handler the triple selects. A triple outside
    /// the implemented table is a hard failure: the state is left unchanged
    /// and the fault names the opcode.
    pub fn decode(&mut self, opcode: u8, bus: &mut MemoryBus) -> (r: Result<(), Fault>)
        requires
            old(self).cycles + 20 <= u64::MAX,
            old(bus).wf(),
        ensures
            final(bus).wf(),
            instruction_post(opcode, *old(self), *final(self), *old(bus), *final(bus), r),
    {
        let x: u8 = opcode / 64;
        let y: u8 = (opcode / 8) % 8;
        let z: u8 = opcode % 8;
        match (x, y, z) {
            (0, 0, 0) => {
                Control::nop(self);
                Ok(())
            },
            (0, 0, 1) => {
                LD::ld_bc_n16(self, bus);
                Ok(())
            },
            (0, 0, 2) => LD::ld_bc_a(self, bus),
            (0, 0, 3) => {
                Control::inc_bc(self);
                Ok(())
            },
            (0, 0, 4) => {
                Control::inc_b(self);
                Ok(())
            },
            (0, 0, 5) => {
                Control::dec_b(self);
                Ok(())
            },
            (0, 0, 6) => {
                LD::ld_b_n8(self, bus);
                Ok(())
            },
            (0, 0, 7) => {
                Control::rlca(self);
                Ok(())
            },
            (0, 1, 0) => LD::ld_a16_sp(self, bus),
            (0, 1, 1) => {
                Control::add_hl_bc(self);
                Ok(())
            },
            (0, 1, 2) => {
                LD::ld_a_bc(self, bus);
                Ok(())
            },
            (0, 1, 3) => {
                Control::dec_bc(self);
                Ok(())
            },
            (0, 1, 4) => {
                Control::inc_c(self);
                Ok(())
            },
            (0, 1, 5) => {
                Control::dec_c(self);
                Ok(())
            },
            (0, 1, 6) => {
                LD::ld_c_n8(self, bus);
                Ok(())
            },
            (0, 1, 7) => {
                Control::rrca(self);
                Ok(())
            },
            (0, 2, 0) => {
                Control::stop(self);
                Ok(())
            },
            (0, 2, 1) => {
                LD::ld_de_n16(self, bus);
                Ok(())
            },
            (0, 2, 2) => LD::ld_de_a(self, bus),
            (0, 2, 3) => {
                Control::inc_de(self);
                Ok(())
            },
            (0, 2, 4) => {
                Control::inc_d(self);
                Ok(())
            },
            (0, 2, 5) => {
                Control::dec_d(self);
                Ok(())
            },
            (0, 2, 6) => {
                LD::ld_d_n8(self, bus);
                Ok(())
            },
            (0, 2, 7) => {
                Control::rla(self);
                Ok(())
            },
            (0, 3, 0) => {
                Control::jr_e8(self, bus);
                Ok(())
            },
            (0, 3, 1) => {
                Control::add_hl_de(self);
                Ok(())
            },
            (0, 3, 2) => {
                LD::ld_a_de(self, bus);
                Ok(())
            },
            (0, 3, 3) => {
                Control::dec_de(self);
                Ok(())
            },
            (0, 3, 4) => {
                Control::inc_e(self);
                Ok(())
            },
            (0, 3, 5) => {
                Control::dec_e(self);
                Ok(())
            },
            (0, 3, 6) => {
                LD::ld_e_n8(self, bus);
                Ok(())
            },
            (0, 3, 7) => {
                Control::rra(self);
                Ok(())
            },
            (0, 4, 0) => {
                Control::jr_nz_e8(self, bus);
                Ok(())
            },
            (0, 4, 1) => {
                LD::ld_hl_n16(self, bus);
                Ok(())
            },
            (0, 4, 2) => LD::ld_hl_plus_a(self, bus),
            (0, 4, 3) => {
                Control::inc_hl(self);
                Ok(())
            },
            (0, 4, 4) => {
                Control::inc_h(self);
                Ok(())
            },
            (0, 4, 5) => {
                Control::dec_h(self);
                Ok(())
            },
            (0, 4, 6) => {
                LD::ld_h_n8(self, bus);
                Ok(())
            },
            (0, 4, 7) => {
                Control::daa(self);
                Ok(())
            },
            (0, 5, 0) => {
                Control::jr_z_n8(self, bus);
                Ok(())
            },
            (0, 5, 1) => {
                Control::add_hl_hl(self);
                Ok(())
            },
            (0, 5, 2) => {
                LD::ld_a_hl_plus(self, bus);
                Ok(())
            },
            (0, 5, 3) => {
                Control::dec_hl(self);
                Ok(())
            },
            (0, 5, 4) => {
                Control::inc_l(self);
                Ok(())
            },
            (0, 5, 5) => {
                Control::dec_l(self);
                Ok(())
            },
            (0, 5, 6) => {
                LD::ld_l_n8(self, bus);
                Ok(())
            },
            (0, 5, 7) => {
                Control::cpl(self);
                Ok(())
            },
            (0, 6, 0) => {
                Control::jr_nc_e8(self, bus);
                Ok(())
            },
            (0, 6, 1) => {
                LD::ld_sp_n16(self, bus);
                Ok(())
            },
            (0, 6, 2) => LD::ld_hl_minus_a(self, bus),
            (0, 6, 3) => {
                Control::inc_sp(self);
                Ok(())
            },
            (0, 6, 4) => Control::inc_hl_(self, bus),
            (0, 6, 5) => Control::dec_hl_(self, bus),
            (0, 6, 6) => LD::ld_hl_n8(self, bus),
            (0, 6, 7) => {
                Control::scf(self);
                Ok(())
            },
            (0, 7, 0) => {
                Control::jr_c_e8(self, bus);
                Ok(())
            },
            (0, 7, 1) => {
                Control::add_hl_sp(self);
                Ok(())
            },
            (0, 7, 2) => {
                LD::ld_a_hl_minus(self, bus);
                Ok(())
            },
            (0, 7, 3) => {
                Control::dec_sp(self);
                Ok(())
            },
            (0, 7, 4) => {
                Control::inc_a(self);
                Ok(())
            },
            (0, 7, 5) => {
                Control::dec_a(self);
                Ok(())
            },
            (0, 7, 6) => {
                LD::ld_a_n8(self, bus);
                Ok(())
            },
            (0, 7, 7) => {
                Control::ccf(self);
                Ok(())
            },
            (1, 6, 6) => Err(Fault::UnimplementedOpcode(opcode)),
            (1, 6, src) => LD::ld_hl_r(self, bus, r8_from_index(src)),
            (1, dst, 6) => {
                LD::ld_r_hl(self, bus, r8_from_index(dst));
                Ok(())
            },
            (1, dst, src) => {
                LD::ld_r8_r8(self, r8_from_index(dst), r8_from_index(src));
                Ok(())
            },
            _ => Err(Fault::UnimplementedOpcode(opcode)),
        }
    }
}

} // verus!
