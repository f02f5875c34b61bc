//! The interrupt-enable register: the single byte at 0xFFFF.

use vstd::prelude::*;
use crate::error::memory_error::MemoryError;
use crate::memory_bus::bus::BUS;

verus! {

pub struct Interrupt {
    pub r: Vec<u8>,
}

impl Interrupt {
    pub fn new() -> (r: Interrupt)
        ensures
            r.wf(),
            forall|i: int| 0 <= i < 1 ==> r.contents()[i] == 0u8,
    {
        Interrupt { r: vec![0u8; 1] }
    }
}

impl BUS for Interrupt {
    open spec fn lo(&self) -> u16 {
        0xFFFF
    }

    open spec fn hi(&self) -> u16 {
        0xFFFF
    }

    open spec fn accepts_writes(&self) -> bool {
        true
    }

    open spec fn wf(&self) -> bool {
        self.r.len() == 1
    }

    open spec fn contents(&self) -> Seq<u8> {
        self.r@
    }

    fn read(&self, address: u16) -> (r: Result<u8, MemoryError>) {
        if 0xFFFF <= address && address <= 0xFFFF {
            Ok(self.r[(address - 0xFFFF) as usize])
        } else {
            Err(MemoryError::InvalidAddress(address))
        }
    }

    fn write(&mut self, address: u16, value: u8) -> (r: Result<(), MemoryError>) {
        if 0xFFFF <= address && address <= 0xFFFF {
            self.r[(address - 0xFFFF) as usize] = value;
            Ok(())
        } else {
            Err(MemoryError::InvalidAddress(address))
        }
    }
}

} // verus!
