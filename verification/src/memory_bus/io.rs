//! Memory-mapped peripheral registers: 128 bytes at 0xFF00-0xFF7F.

use vstd::prelude::*;
use crate::error::memory_error::MemoryError;
use crate::memory_bus::bus::BUS;

verus! {

pub struct IO {
    pub r: Vec<u8>,
}

impl IO {
    pub fn new() -> (r: IO)
        ensures
            r.wf(),
            forall|i: int| 0 <= i < 0x80 ==> r.contents()[i] == 0u8,
    {
        IO { r: vec![0u8; 0x80] }
    }
}

impl BUS for IO {
    open spec fn lo(&self) -> u16 {
        0xFF00
    }

    open spec fn hi(&self) -> u16 {
        0xFF7F
    }

    open spec fn accepts_writes(&self) -> bool {
        true
    }

    open spec fn wf(&self) -> bool {
        self.r.len() == 0x80
    }

    open spec fn contents(&self) -> Seq<u8> {
        self.r@
    }

    fn read(&self, address: u16) -> (r: Result<u8, MemoryError>) {
        if 0xFF00 <= address && address <= 0xFF7F {
            Ok(self.r[(address - 0xFF00) as usize])
        } else {
            Err(MemoryError::InvalidAddress(address))
        }
    }

    fn write(&mut self, address: u16, value: u8) -> (r: Result<(), MemoryError>) {
        if 0xFF00 <= address && address <= 0xFF7F {
            self.r[(address - 0xFF00) as usize] = value;
            Ok(())
        } else {
            Err(MemoryError::InvalidAddress(address))
        }
    }
}

} // verus!
