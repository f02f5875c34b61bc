//! Cartridge ROM: two fixed 16 KiB banks covering 0x0000-0x7FFF, read-only
//! from the bus's perspective.

use vstd::prelude::*;

verus! {

pub struct ROM {
    pub bank0: Vec<u8>,
    pub bank1: Vec<u8>,
}

impl ROM {
    /// Both banks have their fixed 16 KiB size.
    pub open spec fn wf(&self) -> bool {
        self.bank0.len() == 0x4000 && self.bank1.len() == 0x4000
    }

    /// The byte the ROM yields at `address` within 0x0000-0x7FFF.
    pub open spec fn spec_read_byte(&self, address: u16) -> u8 {
        if address < 0x4000 {
            self.bank0@[address as int]
        } else {
            self.bank1@[address - 0x4000]
        }
    }

    pub fn new() -> (r: ROM)
        ensures
            r.wf(),
            forall|a: u16| a < 0x8000 ==> r.spec_read_byte(a) == 0u8,
    {
        ROM { bank0: vec![0u8; 0x4000], bank1: vec![0u8; 0x4000] }
    }

    /// The byte at `address`, which must lie in the ROM's own range.
    pub fn read_byte(&self, address: u16) -> (r: u8)
        requires
            self.wf(),
            address < 0x8000,
        ensures
            r == self.spec_read_byte(address),
    {
        if address < 0x4000 {
            self.bank0[address as usize]
        } else {
            self.bank1[(address - 0x4000) as usize]
        }
    }

    /// Fills the two banks from an image of at most 32 KiB: the first 16 KiB
    /// go to bank 0, the rest to bank 1, and whatever the image does not
    /// cover stays zero.
    pub fn load(&mut self, data: &Vec<u8>)
        requires
            data.len() <= 0x8000,
        ensures
            final(self).wf(),
            forall|i: int|
                0 <= i < 0x4000 ==> final(self).bank0@[i] == (if i < data@.len() {
                    data@[i]
                } else {
                    0u8
                }),
            forall|i: int|
                0 <= i < 0x4000 ==> final(self).bank1@[i] == (if 0x4000 + i < data@.len() {
                    data@[0x4000 + i]
                } else {
                    0u8
                }),
    {
        let mut bank0: Vec<u8> = Vec::new();
        let mut i: usize = 0;
        while i < 0x4000
            invariant
                i <= 0x4000,
                bank0.len() == i,
                data.len() <= 0x8000,
                forall|j: int|
                    0 <= j < i ==> bank0@[j] == (if j < data@.len() {
                        data@[j]
                    } else {
                        0u8
                    }),
            decreases 0x4000 - i,
        {
            if i < data.len() {
                bank0.push(data[i]);
            } else {
                bank0.push(0u8);
            }
            i = i + 1;
        }
        let mut bank1: Vec<u8> = Vec::new();
        let mut k: usize = 0;
        while k < 0x4000
            invariant
                k <= 0x4000,
                bank1.len() == k,
                data.len() <= 0x8000,
                forall|j: int|
                    0 <= j < k ==> bank1@[j] == (if 0x4000 + j < data@.len() {
                        data@[0x4000 + j]
                    } else {
                        0u8
                    }),
            decreases 0x4000 - k,
        {
            if 0x4000 + k < data.len() {
                bank1.push(data[0x4000 + k]);
            } else {
                bank1.push(0u8);
            }
            k = k + 1;
        }
        self.bank0 = bank0;
        self.bank1 = bank1;
    }
}

} // verus!
