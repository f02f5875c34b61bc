//! Work RAM: 8 KiB at 0xC000-0xDFFF, organized as two 4 KiB banks.

use vstd::prelude::*;
use crate::error::memory_error::MemoryError;
use crate::memory_bus::bus::BUS;

verus! {

pub struct WRAM {
    pub r1: Vec<u8>,
    pub r2: Vec<u8>,
}

impl WRAM {
    pub fn new() -> (r: WRAM)
        ensures
            r.wf(),
            forall|i: int| 0 <= i < 0x2000 ==> r.contents()[i] == 0u8,
    {
        WRAM { r1: vec![0u8; 0x1000], r2: vec![0u8; 0x1000] }
    }
}

impl BUS for WRAM {
    open spec fn lo(&self) -> u16 {
        0xC000
    }

    open spec fn hi(&self) -> u16 {
        0xDFFF
    }

    open spec fn accepts_writes(&self) -> bool {
        true
    }

    open spec fn wf(&self) -> bool {
        self.r1.len() == 0x1000 && self.r2.len() == 0x1000
    }

    open spec fn contents(&self) -> Seq<u8> {
        self.r1@ + self.r2@
    }

    fn read(&self, address: u16) -> (r: Result<u8, MemoryError>) {
        if 0xC000 <= address && address <= 0xCFFF {
            Ok(self.r1[(address - 0xC000) as usize])
        } else if 0xD000 <= address && address <= 0xDFFF {
            Ok(self.r2[(address - 0xD000) as usize])
        } else {
            Err(MemoryError::InvalidAddress(address))
        }
    }

    fn write(&mut self, address: u16, value: u8) -> (r: Result<(), MemoryError>) {
        if 0xC000 <= address && address <= 0xCFFF {
            self.r1[(address - 0xC000) as usize] = value;
            proof {
                assert(self.r1@ + self.r2@ =~= (old(self).r1@ + old(self).r2@).update(
                    address - 0xC000,
                    value,
                ));
            }
            Ok(())
        } else if 0xD000 <= address && address <= 0xDFFF {
            self.r2[(address - 0xD000) as usize] = value;
            proof {
                assert(self.r1@ + self.r2@ =~= (old(self).r1@ + old(self).r2@).update(
                    address - 0xC000,
                    value,
                ));
            }
            Ok(())
        } else {
            Err(MemoryError::InvalidAddress(address))
        }
    }
}

} // verus!
