//! Echo RAM at 0xE000-0xFDFF: a true mirror of the first 7.5 KiB of work
//! RAM, modeled as an address translation rather than an independent backing
//! store, so the mirrored bytes can never diverge.

use vstd::prelude::*;

verus! {

pub struct EchoRAM {}

impl EchoRAM {
    /// Whether `address` lies in the mirrored range.
    pub open spec fn spec_in_range(address: u16) -> bool {
        0xE000 <= address && address <= 0xFDFF
    }

    pub fn new() -> (r: EchoRAM) {
        EchoRAM {  }
    }

    /// The work-RAM address that `address` mirrors: the same offset, 0x2000
    /// lower.
    pub fn translate(&self, address: u16) -> (r: u16)
        requires
            Self::spec_in_range(address),
        ensures
            r == address - 0x2000,
    {
        address - 0x2000
    }
}

} // verus!
