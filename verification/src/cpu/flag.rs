//! The processor status flags: a four-bit-significant register with named
//! accessors for the carry, half-carry, subtract and zero bits.

use vstd::prelude::*;

verus! {

/// Bit mask of the carry flag inside the flags byte.
pub const C_FLAG: u8 = 0x10;

/// Bit mask of the half-carry flag inside the flags byte.
pub const H_FLAG: u8 = 0x20;

/// Bit mask of the subtract (negate) flag inside the flags byte.
pub const N_FLAG: u8 = 0x40;

/// Bit mask of the zero flag inside the flags byte.
pub const Z_FLAG: u8 = 0x80;

/// The bit patterns an accessor accepts: exactly the four named flags.
pub open spec fn valid_flag_bit(bit: u8) -> bool {
    bit == C_FLAG || bit == N_FLAG || bit == H_FLAG || bit == Z_FLAG
}

/// The flags register. Only the four named bits of the underlying byte are
/// ever significant, so each is held as a boolean; every other bit is zero by
/// construction.
pub struct Flag {
    pub c: bool,
    pub n: bool,
    pub h: bool,
    pub z: bool,
}

impl Flag {
    /// The flag selected by one of the four valid bit masks.
    pub open spec fn spec_get(self, bit: u8) -> bool {
        if bit == C_FLAG {
            self.c
        } else if bit == N_FLAG {
            self.n
        } else if bit == H_FLAG {
            self.h
        } else {
            self.z
        }
    }

    pub fn new() -> (r: Flag)
        ensures
            r == (Flag { c: false, n: false, h: false, z: false }),
    {
        Flag { c: false, n: false, h: false, z: false }
    }

    /// Whether the flag named by `bit` is set. A bit pattern outside the four
    /// recognized flags is a programming error and is ruled out up front.
    pub fn get_flag(&self, bit: u8) -> (r: bool)
        requires
            valid_flag_bit(bit),
        ensures
            r == self.spec_get(bit),
    {
        if bit == C_FLAG {
            self.c
        } else if bit == N_FLAG {
            self.n
        } else if bit == H_FLAG {
            self.h
        } else {
            self.z
        }
    }

    /// Sets or clears exactly the flag named by `bit`, leaving the other
    /// three untouched.
    pub fn set_flag(&mut self, set: bool, bit: u8)
        requires
            valid_flag_bit(bit),
        ensures
            *final(self) == (Flag {
                c: if bit == C_FLAG { set } else { old(self).c },
                n: if bit == N_FLAG { set } else { old(self).n },
                h: if bit == H_FLAG { set } else { old(self).h },
                z: if bit == Z_FLAG { set } else { old(self).z },
            }),
    {
        if bit == C_FLAG {
            self.c = set;
        } else if bit == N_FLAG {
            self.n = set;
        } else if bit == H_FLAG {
            self.h = set;
        } else {
            self.z = set;
        }
    }

    /// Sets all four flags in one call, so that an instruction that computes
    /// them together never exposes an intermediate state.
    pub fn set_flags(&mut self, c: bool, n: bool, h: bool, z: bool)
        ensures
            *final(self) == (Flag { c, n, h, z }),
    {
        self.c = c;
        self.n = n;
        self.h = h;
        self.z = z;
    }
}

} // verus!
