//! High RAM: 127 bytes at 0xFF80-0xFFFE.

use vstd::prelude::*;
use crate::error::memory_error::MemoryError;
use crate::memory_bus::bus::BUS;

verus! {

pub struct HRAM {
    pub r: Vec<u8>,
}

impl HRAM {
    pub fn new() -> (r: HRAM)
        ensures
            r.wf(),
            forall|i: int| 0 <= i < 0x7F ==> r.contents()[i] == 0u8,
    {
        HRAM { r: vec![0u8; 0x7F] }
    }
}

impl BUS for HRAM {
    open spec fn lo(&self) -> u16 {
        0xFF80
    }

    open spec fn hi(&self) -> u16 {
        0xFFFE
    }

    open spec fn accepts_writes(&self) -> bool {
        true
    }

    open spec fn wf(&self) -> bool {
        self.r.len() == 0x7F
    }

    open spec fn contents(&self) -> Seq<u8> {
        self.r@
    }

    fn read(&self, address: u16) -> (r: Result<u8, MemoryError>) {
        if 0xFF80 <= address && address <= 0xFFFE {
            Ok(self.r[(address - 0xFF80) as usize])
        } else {
            Err(MemoryError::InvalidAddress(address))
        }
    }

    fn write(&mut self, address: u16, value: u8) -> (r: Result<(), MemoryError>) {
        if 0xFF80 <= address && address <= 0xFFFE {
            self.r[(address - 0xFF80) as usize] = value;
            Ok(())
        } else {
            Err(MemoryError::InvalidAddress(address))
        }
    }
}

} // verus!
