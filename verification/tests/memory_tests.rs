use gbemu::error::memory_error::MemoryError;
use gbemu::gameboy::Gameboy;
use gbemu::memory_bus::bus::BUS;
use gbemu::memory_bus::memory_bus::MemoryBus;
use gbemu::memory_bus::not_usable::NotUsable;
use gbemu::memory_bus::rom::ROM;
use gbemu::memory_bus::v_ram::VRAM;
use gbemu::memory_bus::w_ram::WRAM;

#[test]
fn fresh_bus_reads_zero_everywhere() {
    let bus = MemoryBus::new();
    for addr in [0x0000u16, 0x3FFF, 0x4000, 0x7FFF, 0x8000, 0xA000, 0xC000, 0xE000, 0xFE00, 0xFEA0, 0xFF00, 0xFF80, 0xFFFF] {
        assert_eq!(bus.read(addr), 0x00);
    }
}

#[test]
fn write_routes_to_video_ram() {
    let mut bus = MemoryBus::new();
    bus.write(0x8000, 0xAB);
    assert_eq!(bus.read(0x8000), 0xAB);
    // The byte landed in video RAM itself, not in a neighboring region.
    assert_eq!(bus.v_ram.read(0x8000), Ok(0xAB));
    assert_eq!(bus.read(0x7FFF), 0x00);
    assert_eq!(bus.read(0x8001), 0x00);
    assert_eq!(bus.read(0xA000), 0x00);
}

#[test]
fn unusable_region_reads_but_rejects_writes() {
    let bus = MemoryBus::new();
    // Reading the unusable region yields a byte.
    assert_eq!(bus.read(0xFEA0), 0x00);
    // Writing is rejected: the bus refuses the address outright ...
    assert!(!MemoryBus::writable(0xFEA0));
    assert!(!MemoryBus::writable(0xFEFF));
    // ... and the region itself reports a typed rejection.
    let mut region = NotUsable::new();
    assert_eq!(region.write(0xFEA0, 0x01), Err(MemoryError::WriteNotAllowed(0xFEA0)));
    assert_eq!(region.read(0xFEA0), Ok(0x00));
}

#[test]
fn rom_addresses_are_not_writable() {
    assert!(!MemoryBus::writable(0x0000));
    assert!(!MemoryBus::writable(0x7FFF));
    assert!(MemoryBus::writable(0x8000));
    assert!(MemoryBus::writable(0xFE9F));
    assert!(MemoryBus::writable(0xFF00));
    assert!(MemoryBus::writable(0xFFFF));
}

#[test]
fn region_rejects_address_outside_its_range() {
    let vram = VRAM::new();
    assert_eq!(vram.read(0x0000), Err(MemoryError::InvalidAddress(0x0000)));
    assert_eq!(vram.read(0xA000), Err(MemoryError::InvalidAddress(0xA000)));
    let mut wram = WRAM::new();
    assert_eq!(wram.write(0xB000, 1), Err(MemoryError::InvalidAddress(0xB000)));
}

#[test]
fn echo_ram_mirrors_work_ram() {
    let mut bus = MemoryBus::new();
    // Writing through the echo range lands in work RAM.
    bus.write(0xE123, 0x42);
    assert_eq!(bus.read(0xC123), 0x42);
    assert_eq!(bus.read(0xE123), 0x42);
    // Writing work RAM is visible through the echo range.
    bus.write(0xC200, 0x99);
    assert_eq!(bus.read(0xE200), 0x99);
    // The last mirrored address.
    bus.write(0xFDFF, 0x55);
    assert_eq!(bus.read(0xDDFF), 0x55);
    // Work RAM above the mirrored window has no echo counterpart.
    bus.write(0xDE00, 0x77);
    assert_eq!(bus.read(0xDE00), 0x77);
    assert_eq!(bus.read(0xFE00), 0x00);
}

#[test]
fn work_ram_covers_both_banks() {
    let mut bus = MemoryBus::new();
    bus.write(0xC000, 0x01);
    bus.write(0xCFFF, 0x02);
    bus.write(0xD000, 0x03);
    bus.write(0xDFFF, 0x04);
    assert_eq!(bus.read(0xC000), 0x01);
    assert_eq!(bus.read(0xCFFF), 0x02);
    assert_eq!(bus.read(0xD000), 0x03);
    assert_eq!(bus.read(0xDFFF), 0x04);
}

#[test]
fn high_regions_read_back_what_was_written() {
    let mut bus = MemoryBus::new();
    for (addr, value) in [
        (0x9FFFu16, 0x11u8),
        (0xA000, 0x12),
        (0xBFFF, 0x13),
        (0xFE00, 0x14),
        (0xFE9F, 0x15),
        (0xFF00, 0x16),
        (0xFF7F, 0x17),
        (0xFF80, 0x18),
        (0xFFFE, 0x19),
        (0xFFFF, 0x1A),
    ] {
        bus.write(addr, value);
        assert_eq!(bus.read(addr), value);
    }
}

#[test]
fn rom_load_splits_banks_and_zero_fills() {
    let mut rom = ROM::new();
    // An image shorter than one bank: the tail of both banks stays zero.
    let mut data = vec![0xC3u8, 0x20, 0xC2];
    rom.load(&data);
    assert_eq!(rom.read_byte(0x0000), 0xC3);
    assert_eq!(rom.read_byte(0x0001), 0x20);
    assert_eq!(rom.read_byte(0x0002), 0xC2);
    assert_eq!(rom.read_byte(0x0003), 0x00);
    assert_eq!(rom.read_byte(0x4000), 0x00);
    // An image reaching into the second bank.
    data = vec![0u8; 0x4000];
    data.push(0xAA);
    data.push(0xBB);
    rom.load(&data);
    assert_eq!(rom.read_byte(0x4000), 0xAA);
    assert_eq!(rom.read_byte(0x4001), 0xBB);
    assert_eq!(rom.read_byte(0x4002), 0x00);
    assert_eq!(rom.read_byte(0x7FFF), 0x00);
}

#[test]
fn bus_reads_rom_contents() {
    let mut gb = Gameboy::new();
    let mut data = vec![0u8; 0x4001];
    data[0x0000] = 0x3E;
    data[0x0100] = 0x18;
    data[0x4000] = 0x7C;
    gb.memory_bus.rom.load(&data);
    assert_eq!(gb.memory_bus.read(0x0000), 0x3E);
    assert_eq!(gb.memory_bus.read(0x0100), 0x18);
    assert_eq!(gb.memory_bus.read(0x4000), 0x7C);
    assert_eq!(gb.memory_bus.read(0x7FFF), 0x00);
}
