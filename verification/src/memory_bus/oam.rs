//! Object attribute memory: 160 bytes at 0xFE00-0xFE9F.

use vstd::prelude::*;
use crate::error::memory_error::MemoryError;
use crate::memory_bus::bus::BUS;

verus! {

pub struct OAM {
    pub r: Vec<u8>,
}

impl OAM {
    pub fn new() -> (r: OAM)
        ensures
            r.wf(),
            forall|i: int| 0 <= i < 0xA0 ==> r.contents()[i] == 0u8,
    {
        OAM { r: vec![0u8; 0xA0] }
    }
}

impl BUS for OAM {
    open spec fn lo(&self) -> u16 {
        0xFE00
    }

    open spec fn hi(&self) -> u16 {
        0xFE9F
    }

    open spec fn accepts_writes(&self) -> bool {
        true
    }

    open spec fn wf(&self) -> bool {
        self.r.len() == 0xA0
    }

    open spec fn contents(&self) -> Seq<u8> {
        self.r@
    }

    fn read(&self, address: u16) -> (r: Result<u8, MemoryError>) {
        if 0xFE00 <= address && address <= 0xFE9F {
            Ok(self.r[(address - 0xFE00) as usize])
        } else {
            Err(MemoryError::InvalidAddress(address))
        }
    }

    fn write(&mut self, address: u16, value: u8) -> (r: Result<(), MemoryError>) {
        if 0xFE00 <= address && address <= 0xFE9F {
            self.r[(address - 0xFE00) as usize] = value;
            Ok(())
        } else {
            Err(MemoryError::InvalidAddress(address))
        }
    }
}

} // verus!
