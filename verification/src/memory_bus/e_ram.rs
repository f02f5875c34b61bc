//! External (cartridge) RAM: 8 KiB at 0xA000-0xBFFF.

use vstd::prelude::*;
use crate::error::memory_error::MemoryError;
use crate::memory_bus::bus::BUS;

verus! {

pub struct ExternalRAM {
    pub r: Vec<u8>,
}

impl ExternalRAM {
    pub fn new() -> (r: ExternalRAM)
        ensures
            r.wf(),
            forall|i: int| 0 <= i < 0x2000 ==> r.contents()[i] == 0u8,
    {
        ExternalRAM { r: vec![0u8; 0x2000] }
    }
}

impl BUS for ExternalRAM {
    open spec fn lo(&self) -> u16 {
        0xA000
    }

    open spec fn hi(&self) -> u16 {
        0xBFFF
    }

    open spec fn accepts_writes(&self) -> bool {
        true
    }

    open spec fn wf(&self) -> bool {
        self.r.len() == 0x2000
    }

    open spec fn contents(&self) -> Seq<u8> {
        self.r@
    }

    fn read(&self, address: u16) -> (r: Result<u8, MemoryError>) {
        if 0xA000 <= address && address <= 0xBFFF {
            Ok(self.r[(address - 0xA000) as usize])
        } else {
            Err(MemoryError::InvalidAddress(address))
        }
    }

    fn write(&mut self, address: u16, value: u8) -> (r: Result<(), MemoryError>) {
        if 0xA000 <= address && address <= 0xBFFF {
            self.r[(address - 0xA000) as usize] = value;
            Ok(())
        } else {
            Err(MemoryError::InvalidAddress(address))
        }
    }
}

} // verus!
