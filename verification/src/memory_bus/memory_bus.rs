//! The address bus: routes every 16-bit address to the one region that owns
//! it and enforces each region's read/write legality.

use vstd::prelude::*;
use crate::memory_bus::bus::BUS;
use crate::memory_bus::e_ram::ExternalRAM;
use crate::memory_bus::echo_ram::EchoRAM;
use crate::memory_bus::h_ram::HRAM;
use crate::memory_bus::interrupt::Interrupt;
use crate::memory_bus::io::IO;
use crate::memory_bus::not_usable::NotUsable;
use crate::memory_bus::oam::OAM;
use crate::memory_bus::rom::ROM;
use crate::memory_bus::v_ram::VRAM;
use crate::memory_bus::w_ram::WRAM;

verus! {

pub struct MemoryBus {
    pub rom: ROM,
    pub v_ram: VRAM,
    pub e_ram: ExternalRAM,
    pub w_ram: WRAM,
    pub echo_ram: EchoRAM,
    pub io: IO,
    pub h_ram: HRAM,
    pub oam: OAM,
    pub interrupt: Interrupt,
    pub not_usable: NotUsable,
}

impl MemoryBus {
    /// Every region's backing store has its fixed size.
    pub open spec fn wf(self) -> bool {
        &&& self.rom.wf()
        &&& self.v_ram.wf()
        &&& self.e_ram.wf()
        &&& self.w_ram.wf()
        &&& self.io.wf()
        &&& self.h_ram.wf()
        &&& self.oam.wf()
        &&& self.interrupt.wf()
        &&& self.not_usable.wf()
    }

    /// The byte the bus yields at `addr`. Every address of the 16-bit space
    /// belongs to exactly one branch; echo RAM is an alias of work RAM, so
    /// its branch reads the work-RAM byte 0x2000 below.
    pub open spec fn spec_read(self, addr: u16) -> u8 {
        if addr < 0x8000 {
            self.rom.spec_read_byte(addr)
        } else if addr <= 0x9FFF {
            self.v_ram.contents()[addr - 0x8000]
        } else if addr <= 0xBFFF {
            self.e_ram.contents()[addr - 0xA000]
        } else if addr <= 0xDFFF {
            self.w_ram.contents()[addr - 0xC000]
        } else if addr <= 0xFDFF {
            self.w_ram.contents()[addr - 0xE000]
        } else if addr <= 0xFE9F {
            self.oam.contents()[addr - 0xFE00]
        } else if addr <= 0xFEFF {
            self.not_usable.contents()[addr - 0xFEA0]
        } else if addr <= 0xFF7F {
            self.io.contents()[addr - 0xFF00]
        } else if addr <= 0xFFFE {
            self.h_ram.contents()[addr - 0xFF80]
        } else {
            self.interrupt.contents()[0]
        }
    }

    /// The addresses the bus accepts writes at: everything above the ROM,
    /// except the unusable region.
    pub open spec fn spec_writable(addr: u16) -> bool {
        addr >= 0x8000 && !(0xFEA0 <= addr && addr <= 0xFEFF)
    }

    /// The canonical owner of an address: an echo-RAM address stands for the
    /// work-RAM address 0x2000 below it, every other address for itself.
    pub open spec fn alias(addr: u16) -> u16 {
        if 0xE000 <= addr && addr <= 0xFDFF {
            (addr - 0x2000) as u16
        } else {
            addr
        }
    }

    /// What one write at `addr` does to the observable memory: the written
    /// byte is visible at every address sharing the same canonical owner
    /// (the address itself, and its mirror when one exists), and nowhere
    /// else.
    pub open spec fn write_post(pre: MemoryBus, post: MemoryBus, addr: u16, value: u8) -> bool {
        forall|a: u16|
            #[trigger] post.spec_read(a) == (if Self::alias(a) == Self::alias(addr) {
                value
            } else {
                pre.spec_read(a)
            })
    }

    pub fn new() -> (r: MemoryBus)
        ensures
            r.wf(),
            forall|a: u16| r.spec_read(a) == 0u8,
    {
        MemoryBus {
            rom: ROM::new(),
            v_ram: VRAM::new(),
            e_ram: ExternalRAM::new(),
            w_ram: WRAM::new(),
            echo_ram: EchoRAM::new(),
            io: IO::new(),
            h_ram: HRAM::new(),
            oam: OAM::new(),
            interrupt: Interrupt::new(),
            not_usable: NotUsable::new(),
        }
    }

    /// Whether the bus accepts a write at `addr`.
    pub fn writable(addr: u16) -> (r: bool)
        ensures
            r == Self::spec_writable(addr),
    {
        addr >= 0x8000 && !(0xFEA0 <= addr && addr <= 0xFEFF)
    }

    /// Routes a read to the owning region. Every address has an owner and
    /// every region yields a byte for each address it owns, so a read never
    /// fails.
    pub fn read(&self, addr: u16) -> (r: u8)
        requires
            self.wf(),
        ensures
            r == self.spec_read(addr),
    {
        if addr < 0x8000 {
            self.rom.read_byte(addr)
        } else if addr <= 0x9FFF {
            self.v_ram.read(addr).unwrap()
        } else if addr <= 0xBFFF {
            self.e_ram.read(addr).unwrap()
        } else if addr <= 0xDFFF {
            self.w_ram.read(addr).unwrap()
        } else if addr <= 0xFDFF {
            let mirrored: u16 = self.echo_ram.translate(addr);
            self.w_ram.read(mirrored).unwrap()
        } else if addr <= 0xFE9F {
            self.oam.read(addr).unwrap()
        } else if addr <= 0xFEFF {
            self.not_usable.read(addr).unwrap()
        } else if addr <= 0xFF7F {
            self.io.read(addr).unwrap()
        } else if addr <= 0xFFFE {
            self.h_ram.read(addr).unwrap()
        } else {
            self.interrupt.read(addr).unwrap()
        }
    }

    /// Routes a write to the owning region. The ROM and the unusable region
    /// reject writes, so the caller must stay out of them; a write into echo
    /// RAM lands in the mirrored work-RAM byte.
    pub fn write(&mut self, addr: u16, value: u8)
        requires
            old(self).wf(),
            Self::spec_writable(addr),
        ensures
            final(self).wf(),
            Self::write_post(*old(self), *final(self), addr, value),
    {
        if addr <= 0x9FFF {
            let _ = self.v_ram.write(addr, value);
        } else if addr <= 0xBFFF {
            let _ = self.e_ram.write(addr, value);
        } else if addr <= 0xDFFF {
            let _ = self.w_ram.write(addr, value);
        } else if addr <= 0xFDFF {
            let mirrored: u16 = self.echo_ram.translate(addr);
            let _ = self.w_ram.write(mirrored, value);
        } else if addr <= 0xFE9F {
            let _ = self.oam.write(addr, value);
        } else if addr <= 0xFF7F {
            let _ = self.io.write(addr, value);
        } else if addr <= 0xFFFE {
            let _ = self.h_ram.write(addr, value);
        } else {
            let _ = self.interrupt.write(addr, value);
        }
    }
}

/// Law: echo RAM is a true mirror of work RAM. After any write into the echo
/// range, reading the work-RAM address 0x2000 below yields the written byte,
/// as does reading the echo address itself.
pub proof fn lemma_echo_mirror(pre: MemoryBus, post: MemoryBus, addr: u16, value: u8)
    requires
        0xE000 <= addr <= 0xFDFF,
        MemoryBus::write_post(pre, post, addr, value),
    ensures
        post.spec_read((addr - 0x2000) as u16) == value,
        post.spec_read(addr) == value,
{
    assert(post.spec_read((addr - 0x2000) as u16) == value);
    assert(post.spec_read(addr) == value);
}

/// Law: a write routes to the one region that owns the address. After a
/// write at any address, the bus yields the written byte at that address,
/// and every address with a different canonical owner — every neighboring
/// region, and every unrelated byte of the same region — still yields its
/// old byte.
pub proof fn lemma_write_then_read(pre: MemoryBus, post: MemoryBus, addr: u16, value: u8)
    requires
        MemoryBus::write_post(pre, post, addr, value),
    ensures
        post.spec_read(addr) == value,
        forall|a: u16|
            MemoryBus::alias(a) != MemoryBus::alias(addr) ==> post.spec_read(a) == pre.spec_read(
                a,
            ),
{
    assert(post.spec_read(addr) == value);
}

/// Law: the write policy is distinct from the read policy. No address of the
/// unusable region is ever writable through the bus, yet each one stays
/// readable: the bus's read is total, and any write the bus does accept
/// leaves every unusable byte unchanged.
pub proof fn lemma_unusable_read_write_policies(
    pre: MemoryBus,
    post: MemoryBus,
    addr: u16,
    value: u8,
    u: u16,
)
    requires
        0xFEA0 <= u <= 0xFEFF,
        MemoryBus::spec_writable(addr),
        MemoryBus::write_post(pre, post, addr, value),
    ensures
        !MemoryBus::spec_writable(u),
        post.spec_read(u) == pre.spec_read(u),
{
    assert(MemoryBus::alias(u) != MemoryBus::alias(addr));
}

} // verus!
