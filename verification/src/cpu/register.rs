//! The register file: seven independent 8-bit registers plus the flags
//! register, with 16-bit pair views computed from a fixed (high, low) byte
//! order.

use vstd::prelude::*;
use crate::cpu::flag::Flag;
use crate::utils::byte_utils::{format_u16, get_lsb_u16, get_msb_u16};

verus! {

/// A name for one of the seven 8-bit registers, as selected by the octal
/// row/column fields of an opcode (value 6 names the memory-indirect operand
/// instead and is not a register).
#[derive(Clone, Copy, PartialEq, Eq, Structural)]
pub enum R8 {
    B,
    C,
    D,
    E,
    H,
    L,
    A,
}

/// A name for one of the three general 16-bit register pairs.
#[derive(Clone, Copy, PartialEq, Eq, Structural)]
pub enum RP {
    BC,
    DE,
    HL,
}

/// The register selected by an octal row or column value of an opcode.
/// Value 6 selects the memory-indirect operand, not a register, so it is
/// excluded here.
pub open spec fn spec_r8_sel(i: u8) -> R8 {
    if i == 0 {
        R8::B
    } else if i == 1 {
        R8::C
    } else if i == 2 {
        R8::D
    } else if i == 3 {
        R8::E
    } else if i == 4 {
        R8::H
    } else if i == 5 {
        R8::L
    } else {
        R8::A
    }
}

/// Maps an octal row or column value other than 6 to the register it names.
pub fn r8_from_index(i: u8) -> (r: R8)
    requires
        i <= 7,
        i != 6,
    ensures
        r == spec_r8_sel(i),
{
    if i == 0 {
        R8::B
    } else if i == 1 {
        R8::C
    } else if i == 2 {
        R8::D
    } else if i == 3 {
        R8::E
    } else if i == 4 {
        R8::H
    } else if i == 5 {
        R8::L
    } else {
        R8::A
    }
}

/// The register file.
pub struct Register {
    pub a: u8,
    pub b: u8,
    pub c: u8,
    pub d: u8,
    pub e: u8,
    pub f: Flag,
    pub h: u8,
    pub l: u8,
}

impl Register {
    /// The value of the register named `r`.
    pub open spec fn spec_r8(self, r: R8) -> u8 {
        match r {
            R8::B => self.b,
            R8::C => self.c,
            R8::D => self.d,
            R8::E => self.e,
            R8::H => self.h,
            R8::L => self.l,
            R8::A => self.a,
        }
    }

    /// This register file with the register named `r` set to `v`.
    pub open spec fn spec_set_r8(self, r: R8, v: u8) -> Register {
        match r {
            R8::B => Register { b: v, ..self },
            R8::C => Register { c: v, ..self },
            R8::D => Register { d: v, ..self },
            R8::E => Register { e: v, ..self },
            R8::H => Register { h: v, ..self },
            R8::L => Register { l: v, ..self },
            R8::A => Register { a: v, ..self },
        }
    }

    /// This register file with the flags replaced by `f`.
    pub open spec fn spec_with_f(self, f: Flag) -> Register {
        Register { f, ..self }
    }

    /// This register file with the BC pair set to `v`.
    pub open spec fn spec_set_bc(self, v: u16) -> Register {
        Register { b: (v / 256) as u8, c: (v % 256) as u8, ..self }
    }

    /// This register file with the DE pair set to `v`.
    pub open spec fn spec_set_de(self, v: u16) -> Register {
        Register { d: (v / 256) as u8, e: (v % 256) as u8, ..self }
    }

    /// This register file with the HL pair set to `v`.
    pub open spec fn spec_set_hl(self, v: u16) -> Register {
        Register { h: (v / 256) as u8, l: (v % 256) as u8, ..self }
    }

    /// The value of the register pair named `p`.
    pub open spec fn spec_rp(self, p: RP) -> u16 {
        match p {
            RP::BC => self.spec_bc(),
            RP::DE => self.spec_de(),
            RP::HL => self.spec_hl(),
        }
    }

    /// This register file with the pair named `p` set to `v`.
    pub open spec fn spec_set_rp(self, p: RP, v: u16) -> Register {
        match p {
            RP::BC => self.spec_set_bc(v),
            RP::DE => self.spec_set_de(v),
            RP::HL => self.spec_set_hl(v),
        }
    }

    /// The BC pair: B is the high byte, C the low byte.
    pub open spec fn spec_bc(self) -> u16 {
        (self.b * 256 + self.c) as u16
    }

    /// The DE pair: D is the high byte, E the low byte.
    pub open spec fn spec_de(self) -> u16 {
        (self.d * 256 + self.e) as u16
    }

    /// The HL pair: H is the high byte, L the low byte.
    pub open spec fn spec_hl(self) -> u16 {
        (self.h * 256 + self.l) as u16
    }

    pub fn new() -> (r: Register)
        ensures
            r == (Register {
                a: 0,
                b: 0,
                c: 0,
                d: 0,
                e: 0,
                f: Flag { c: false, n: false, h: false, z: false },
                h: 0,
                l: 0,
            }),
    {
        Register {
            a: 0,
            b: 0,
            c: 0,
            d: 0,
            e: 0,
            f: Flag::new(),
            h: 0,
            l: 0,
        }
    }

    pub fn get_a(&self) -> (r: u8)
        ensures
            r == self.a,
    {
        self.a
    }

    pub fn get_b(&self) -> (r: u8)
        ensures
            r == self.b,
    {
        self.b
    }

    pub fn get_c(&self) -> (r: u8)
        ensures
            r == self.c,
    {
        self.c
    }

    pub fn get_d(&self) -> (r: u8)
        ensures
            r == self.d,
    {
        self.d
    }

    pub fn get_e(&self) -> (r: u8)
        ensures
            r == self.e,
    {
        self.e
    }

    pub fn get_h(&self) -> (r: u8)
        ensures
            r == self.h,
    {
        self.h
    }

    pub fn get_l(&self) -> (r: u8)
        ensures
            r == self.l,
    {
        self.l
    }

    /// The value of the register named `r`.
    pub fn get_r8(&self, r: R8) -> (v: u8)
        ensures
            v == self.spec_r8(r),
    {
        match r {
            R8::B => self.b,
            R8::C => self.c,
            R8::D => self.d,
            R8::E => self.e,
            R8::H => self.h,
            R8::L => self.l,
            R8::A => self.a,
        }
    }

    pub fn get_hl(&self) -> (r: u16)
        ensures
            r == self.spec_hl(),
    {
        format_u16(self.h, self.l)
    }

    pub fn get_f_mut(&mut self) -> (r: &mut Flag)
        ensures
            *r == old(self).f,
            *final(self) == (Register { f: *final(r), ..*old(self) }),
    {
        &mut self.f
    }

    pub fn get_f(&self) -> (r: &Flag)
        ensures
            *r == self.f,
    {
        &self.f
    }

    pub fn get_bc(&self) -> (r: u16)
        ensures
            r == self.spec_bc(),
    {
        format_u16(self.b, self.c)
    }

    pub fn get_de(&self) -> (r: u16)
        ensures
            r == self.spec_de(),
    {
        format_u16(self.d, self.e)
    }

    pub fn set_a(&mut self, value: u8)
        ensures
            *final(self) == (Register { a: value, ..*old(self) }),
    {
        self.a = value;
    }

    pub fn set_b(&mut self, value: u8)
        ensures
            *final(self) == (Register { b: value, ..*old(self) }),
    {
        self.b = value;
    }

    pub fn set_c(&mut self, value: u8)
        ensures
            *final(self) == (Register { c: value, ..*old(self) }),
    {
        self.c = value;
    }

    pub fn set_d(&mut self, value: u8)
        ensures
            *final(self) == (Register { d: value, ..*old(self) }),
    {
        self.d = value;
    }

    pub fn set_e(&mut self, value: u8)
        ensures
            *final(self) == (Register { e: value, ..*old(self) }),
    {
        self.e = value;
    }

    pub fn set_h(&mut self, value: u8)
        ensures
            *final(self) == (Register { h: value, ..*old(self) }),
    {
        self.h = value;
    }

    pub fn set_l(&mut self, value: u8)
        ensures
            *final(self) == (Register { l: value, ..*old(self) }),
    {
        self.l = value;
    }

    /// Sets the register named `r` to `value`.
    pub fn set_r8(&mut self, r: R8, value: u8)
        ensures
            *final(self) == old(self).spec_set_r8(r, value),
    {
        match r {
            R8::B => self.b = value,
            R8::C => self.c = value,
            R8::D => self.d = value,
            R8::E => self.e = value,
            R8::H => self.h = value,
            R8::L => self.l = value,
            R8::A => self.a = value,
        }
    }

    /// The value of the register pair named `p`.
    pub fn get_rp(&self, p: RP) -> (r: u16)
        ensures
            r == self.spec_rp(p),
    {
        match p {
            RP::BC => self.get_bc(),
            RP::DE => self.get_de(),
            RP::HL => self.get_hl(),
        }
    }

    /// Writes both halves of the pair named `p` from a 16-bit value.
    pub fn set_rp(&mut self, p: RP, value: u16)
        ensures
            *final(self) == old(self).spec_set_rp(p, value),
    {
        match p {
            RP::BC => self.set_bc(value),
            RP::DE => self.set_de(value),
            RP::HL => self.set_hl(value),
        }
    }

    /// Writes both halves of the HL pair from a 16-bit value.
    pub fn set_hl(&mut self, value: u16)
        ensures
            *final(self) == (Register {
                h: (value / 256) as u8,
                l: (value % 256) as u8,
                ..*old(self)
            }),
    {
        let high: u8 = get_msb_u16(value);
        let low: u8 = get_lsb_u16(value);
        self.h = high;
        self.l = low;
    }

    /// Writes both halves of the BC pair from a 16-bit value.
    pub fn set_bc(&mut self, value: u16)
        ensures
            *final(self) == (Register {
                b: (value / 256) as u8,
                c: (value % 256) as u8,
                ..*old(self)
            }),
    {
        let high: u8 = get_msb_u16(value);
        let low: u8 = get_lsb_u16(value);
        self.b = high;
        self.c = low;
    }

    /// Writes both halves of the DE pair from a 16-bit value.
    pub fn set_de(&mut self, value: u16)
        ensures
            *final(self) == (Register {
                d: (value / 256) as u8,
                e: (value % 256) as u8,
                ..*old(self)
            }),
    {
        let high: u8 = get_msb_u16(value);
        let low: u8 = get_lsb_u16(value);
        self.d = high;
        self.e = low;
    }
}

} // verus!
