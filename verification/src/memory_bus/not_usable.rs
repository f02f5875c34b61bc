//! The unusable region at 0xFEA0-0xFEFF: reads yield a fixed byte, writes
//! are rejected.

use vstd::prelude::*;
use crate::error::memory_error::MemoryError;
use crate::memory_bus::bus::BUS;

verus! {

pub struct NotUsable {
    pub r: Vec<u8>,
}

impl NotUsable {
    pub fn new() -> (r: NotUsable)
        ensures
            r.wf(),
            forall|i: int| 0 <= i < 0x60 ==> r.contents()[i] == 0u8,
    {
        NotUsable { r: vec![0u8; 0x60] }
    }
}

impl BUS for NotUsable {
    open spec fn lo(&self) -> u16 {
        0xFEA0
    }

    open spec fn hi(&self) -> u16 {
        0xFEFF
    }

    open spec fn accepts_writes(&self) -> bool {
        false
    }

    open spec fn wf(&self) -> bool {
        self.r.len() == 0x60
    }

    open spec fn contents(&self) -> Seq<u8> {
        self.r@
    }

    fn read(&self, address: u16) -> (r: Result<u8, MemoryError>) {
        if 0xFEA0 <= address && address <= 0xFEFF {
            Ok(self.r[(address - 0xFEA0) as usize])
        } else {
            Err(MemoryError::InvalidAddress(address))
        }
    }

    fn write(&mut self, address: u16, value: u8) -> (r: Result<(), MemoryError>) {
        if 0xFEA0 <= address && address <= 0xFEFF {
            Err(MemoryError::WriteNotAllowed(address))
        } else {
            Err(MemoryError::InvalidAddress(address))
        }
    }
}

} // verus!
