//! Video RAM: 8 KiB at 0x8000-0x9FFF.

use vstd::prelude::*;
use crate::error::memory_error::MemoryError;
use crate::memory_bus::bus::BUS;

verus! {

pub struct VRAM {
    pub r: Vec<u8>,
}

impl VRAM {
    pub fn new() -> (r: VRAM)
        ensures
            r.wf(),
            forall|i: int| 0 <= i < 0x2000 ==> r.contents()[i] == 0u8,
    {
        VRAM { r: vec![0u8; 0x2000] }
    }
}

impl BUS for VRAM {
    open spec fn lo(&self) -> u16 {
        0x8000
    }

    open spec fn hi(&self) -> u16 {
        0x9FFF
    }

    open spec fn accepts_writes(&self) -> bool {
        true
    }

    open spec fn wf(&self) -> bool {
        self.r.len() == 0x2000
    }

    open spec fn contents(&self) -> Seq<u8> {
        self.r@
    }

    fn read(&self, address: u16) -> (r: Result<u8, MemoryError>) {
        if 0x8000 <= address && address <= 0x9FFF {
            Ok(self.r[(address - 0x8000) as usize])
        } else {
            Err(MemoryError::InvalidAddress(address))
        }
    }

    fn write(&mut self, address: u16, value: u8) -> (r: Result<(), MemoryError>) {
        if 0x8000 <= address && address <= 0x9FFF {
            self.r[(address - 0x8000) as usize] = value;
            Ok(())
        } else {
            Err(MemoryError::InvalidAddress(address))
        }
    }
}

} // verus!
