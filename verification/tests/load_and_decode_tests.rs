use gbemu::cpu::cpu::{Fault, CPU};
use gbemu::cpu::flag::{C_FLAG, N_FLAG, H_FLAG, Z_FLAG};
use gbemu::cpu::ld::LD;
use gbemu::cpu::register::{R8, Register};
use gbemu::gameboy::Gameboy;
use gbemu::memory_bus::memory_bus::MemoryBus;
use gbemu::utils::byte_utils::{format_u16, get_lsb_u16, get_lsb_u8, get_msb_u16};

#[test]
fn byte_helpers_split_and_join() {
    assert_eq!(format_u16(0x12, 0x34), 0x1234);
    assert_eq!(get_msb_u16(0x1234), 0x12);
    assert_eq!(get_lsb_u16(0x1234), 0x34);
    assert_eq!(get_lsb_u8(0x03), 0x01);
    assert_eq!(get_lsb_u8(0x02), 0x00);
    assert_eq!(format_u16(get_msb_u16(0xBEEF), get_lsb_u16(0xBEEF)), 0xBEEF);
}

#[test]
fn flag_accessors_touch_only_the_named_bit() {
    let mut registers = Register::new();
    registers.get_f_mut().set_flag(true, C_FLAG);
    assert!(registers.get_f().get_flag(C_FLAG));
    assert!(!registers.get_f().get_flag(N_FLAG));
    assert!(!registers.get_f().get_flag(H_FLAG));
    assert!(!registers.get_f().get_flag(Z_FLAG));
    registers.get_f_mut().set_flag(true, Z_FLAG);
    registers.get_f_mut().set_flag(false, C_FLAG);
    assert!(!registers.get_f().get_flag(C_FLAG));
    assert!(registers.get_f().get_flag(Z_FLAG));
    registers.get_f_mut().set_flags(true, true, false, false);
    assert!(registers.get_f().get_flag(C_FLAG));
    assert!(registers.get_f().get_flag(N_FLAG));
    assert!(!registers.get_f().get_flag(H_FLAG));
    assert!(!registers.get_f().get_flag(Z_FLAG));
}

#[test]
fn register_pairs_compose_high_and_low_bytes() {
    let mut registers = Register::new();
    registers.set_bc(0x1234);
    assert_eq!(registers.get_b(), 0x12);
    assert_eq!(registers.get_c(), 0x34);
    assert_eq!(registers.get_bc(), 0x1234);
    registers.set_de(0xABCD);
    assert_eq!(registers.get_de(), 0xABCD);
    registers.set_h(0x0F);
    registers.set_l(0xF0);
    assert_eq!(registers.get_hl(), 0x0FF0);
}

#[test]
fn immediate_loads_read_operands_after_the_opcode() {
    let mut gb = Gameboy::new();
    let mut data = vec![0u8; 0x10];
    data[0x01] = 0x34;  // low byte
    data[0x02] = 0x12;  // high byte
    gb.memory_bus.rom.load(&data);
    LD::ld_bc_n16(&mut gb.cpu, &gb.memory_bus);
    assert_eq!(gb.cpu.registers.get_bc(), 0x1234);
    assert_eq!(gb.cpu.get_pc(), 0x0003);
    assert_eq!(gb.cpu.cycles, 12);
    gb.cpu.change_pc(0x0000);
    LD::ld_sp_n16(&mut gb.cpu, &gb.memory_bus);
    assert_eq!(gb.cpu.get_sp(), 0x1234);
    gb.cpu.change_pc(0x0000);
    LD::ld_b_n8(&mut gb.cpu, &gb.memory_bus);
    assert_eq!(gb.cpu.registers.get_b(), 0x34);
    assert_eq!(gb.cpu.get_pc(), 0x0002);
}

#[test]
fn accumulator_stores_and_loads_through_pairs() {
    let mut cpu = CPU::new();
    let mut bus = MemoryBus::new();
    cpu.registers.set_a(0x77);
    cpu.registers.set_bc(0xC050);
    assert_eq!(LD::ld_bc_a(&mut cpu, &mut bus), Ok(()));
    assert_eq!(bus.read(0xC050), 0x77);
    cpu.registers.set_de(0xC050);
    cpu.registers.set_a(0x00);
    LD::ld_a_de(&mut cpu, &bus);
    assert_eq!(cpu.registers.get_a(), 0x77);
}

#[test]
fn store_through_pair_at_rom_address_faults() {
    let mut cpu = CPU::new();
    let mut bus = MemoryBus::new();
    cpu.registers.set_a(0x77);
    // BC is zero: a store would land in ROM.
    assert_eq!(LD::ld_bc_a(&mut cpu, &mut bus), Err(Fault::IllegalWrite(0x0000)));
    assert_eq!(cpu.cycles, 0);
    cpu.registers.set_de(0xFEA0);
    assert_eq!(LD::ld_de_a(&mut cpu, &mut bus), Err(Fault::IllegalWrite(0xFEA0)));
}

#[test]
fn hl_loads_with_post_increment_and_post_decrement() {
    let mut cpu = CPU::new();
    let mut bus = MemoryBus::new();
    cpu.registers.set_a(0x5A);
    cpu.registers.set_hl(0xC000);
    assert_eq!(LD::ld_hl_plus_a(&mut cpu, &mut bus), Ok(()));
    assert_eq!(bus.read(0xC000), 0x5A);
    assert_eq!(cpu.registers.get_hl(), 0xC001);
    assert_eq!(LD::ld_hl_minus_a(&mut cpu, &mut bus), Ok(()));
    assert_eq!(bus.read(0xC001), 0x5A);
    assert_eq!(cpu.registers.get_hl(), 0xC000);
    cpu.registers.set_a(0x00);
    LD::ld_a_hl_plus(&mut cpu, &bus);
    assert_eq!(cpu.registers.get_a(), 0x5A);
    assert_eq!(cpu.registers.get_hl(), 0xC001);
    LD::ld_a_hl_minus(&mut cpu, &bus);
    assert_eq!(cpu.registers.get_hl(), 0xC000);
}

#[test]
fn store_stack_pointer_at_immediate_address() {
    let mut gb = Gameboy::new();
    let mut data = vec![0u8; 0x03];
    data[0x01] = 0x00;
    data[0x02] = 0xC1;  // a16 = 0xC100
    gb.memory_bus.rom.load(&data);
    gb.cpu.set_sp(0xBEEF);
    assert_eq!(LD::ld_a16_sp(&mut gb.cpu, &mut gb.memory_bus), Ok(()));
    assert_eq!(gb.memory_bus.read(0xC100), 0xEF);
    assert_eq!(gb.memory_bus.read(0xC101), 0xBE);
    assert_eq!(gb.cpu.get_pc(), 0x0003);
    assert_eq!(gb.cpu.cycles, 20);
}

#[test]
fn store_stack_pointer_faults_when_second_byte_is_unwritable() {
    let mut gb = Gameboy::new();
    let mut data = vec![0u8; 0x03];
    data[0x01] = 0x9F;
    data[0x02] = 0xFE;  // a16 = 0xFE9F: writable, but 0xFEA0 is not
    gb.memory_bus.rom.load(&data);
    gb.cpu.set_sp(0xBEEF);
    assert_eq!(LD::ld_a16_sp(&mut gb.cpu, &mut gb.memory_bus), Err(Fault::IllegalWrite(0xFEA0)));
    // Neither byte was written.
    assert_eq!(gb.memory_bus.read(0xFE9F), 0x00);
    assert_eq!(gb.cpu.get_pc(), 0x0000);
}

#[test]
fn register_to_register_moves() {
    let mut cpu = CPU::new();
    cpu.registers.set_b(0x42);
    LD::ld_r8_r8(&mut cpu, R8::D, R8::B);
    assert_eq!(cpu.registers.get_d(), 0x42);
    assert_eq!(cpu.registers.get_b(), 0x42);
    LD::ld_r8_r8(&mut cpu, R8::A, R8::D);
    assert_eq!(cpu.registers.get_a(), 0x42);
    assert_eq!(cpu.cycles, 8);
}

#[test]
fn loads_between_registers_and_memory_at_hl() {
    let mut cpu = CPU::new();
    let mut bus = MemoryBus::new();
    cpu.registers.set_hl(0xC800);
    cpu.registers.set_e(0x99);
    assert_eq!(LD::ld_hl_r(&mut cpu, &mut bus, R8::E), Ok(()));
    assert_eq!(bus.read(0xC800), 0x99);
    LD::ld_r_hl(&mut cpu, &bus, R8::D);
    assert_eq!(cpu.registers.get_d(), 0x99);
}

#[test]
fn store_of_immediate_at_hl() {
    let mut gb = Gameboy::new();
    let mut data = vec![0u8; 0x02];
    data[0x01] = 0x66;
    gb.memory_bus.rom.load(&data);
    gb.cpu.registers.set_hl(0xFF80);
    assert_eq!(LD::ld_hl_n8(&mut gb.cpu, &mut gb.memory_bus), Ok(()));
    assert_eq!(gb.memory_bus.read(0xFF80), 0x66);
    assert_eq!(gb.cpu.get_pc(), 0x0002);
    assert_eq!(gb.cpu.cycles, 12);
}

#[test]
fn decode_dispatches_by_octal_fields() {
    let mut gb = Gameboy::new();
    // nop
    assert_eq!(gb.cpu.decode(0x00, &mut gb.memory_bus), Ok(()));
    assert_eq!(gb.cpu.get_pc(), 0x0001);
    assert_eq!(gb.cpu.cycles, 4);
    // inc b (block 0, row 0, column 4)
    assert_eq!(gb.cpu.decode(0x04, &mut gb.memory_bus), Ok(()));
    assert_eq!(gb.cpu.registers.get_b(), 0x01);
    // ld d, b (block 1, row 2, column 0)
    assert_eq!(gb.cpu.decode(0x50, &mut gb.memory_bus), Ok(()));
    assert_eq!(gb.cpu.registers.get_d(), 0x01);
    // ld (hl), b with HL in work RAM (block 1, row 6)
    gb.cpu.registers.set_hl(0xC123);
    assert_eq!(gb.cpu.decode(0x70, &mut gb.memory_bus), Ok(()));
    assert_eq!(gb.memory_bus.read(0xC123), 0x01);
    // ld e, (hl) (block 1, column 6)
    assert_eq!(gb.cpu.decode(0x5E, &mut gb.memory_bus), Ok(()));
    assert_eq!(gb.cpu.registers.get_e(), 0x01);
}

#[test]
fn decode_rejects_unimplemented_opcodes() {
    let mut gb = Gameboy::new();
    // Block 2 (arithmetic/logic group) and block 3 are not implemented.
    assert_eq!(gb.cpu.decode(0x80, &mut gb.memory_bus), Err(Fault::UnimplementedOpcode(0x80)));
    assert_eq!(gb.cpu.decode(0xC3, &mut gb.memory_bus), Err(Fault::UnimplementedOpcode(0xC3)));
    // Row 6 / column 6 of the load block is not a load.
    assert_eq!(gb.cpu.decode(0x76, &mut gb.memory_bus), Err(Fault::UnimplementedOpcode(0x76)));
    // Nothing changed.
    assert_eq!(gb.cpu.get_pc(), 0x0000);
    assert_eq!(gb.cpu.cycles, 0);
}

#[test]
fn decode_faults_on_illegal_store() {
    let mut gb = Gameboy::new();
    // ld (bc), a with BC pointing into ROM.
    gb.cpu.registers.set_bc(0x4000);
    assert_eq!(gb.cpu.decode(0x02, &mut gb.memory_bus), Err(Fault::IllegalWrite(0x4000)));
    assert_eq!(gb.cpu.get_pc(), 0x0000);
}

#[test]
fn step_fetches_at_the_program_counter() {
    let mut gb = Gameboy::new();
    let mut data = vec![0u8; 0x06];
    data[0x00] = 0x00;  // nop
    data[0x01] = 0x04;  // inc b
    data[0x02] = 0x0E;  // ld c, n8
    data[0x03] = 0x7B;  // the immediate for ld c
    data[0x04] = 0x41;  // ld b, c
    data[0x05] = 0x10;  // stop
    gb.memory_bus.rom.load(&data);
    assert_eq!(gb.cpu.step(&mut gb.memory_bus), Ok(()));
    assert_eq!(gb.cpu.step(&mut gb.memory_bus), Ok(()));
    assert_eq!(gb.cpu.registers.get_b(), 0x01);
    assert_eq!(gb.cpu.step(&mut gb.memory_bus), Ok(()));
    assert_eq!(gb.cpu.registers.get_c(), 0x7B);
    assert_eq!(gb.cpu.step(&mut gb.memory_bus), Ok(()));
    assert_eq!(gb.cpu.registers.get_b(), 0x7B);
    assert!(gb.cpu.is_running);
    assert_eq!(gb.cpu.step(&mut gb.memory_bus), Ok(()));
    assert!(!gb.cpu.is_running);
    assert_eq!(gb.cpu.get_pc(), 0x0007);
    assert_eq!(gb.cpu.cycles, 4 + 4 + 8 + 4 + 4);
}

#[test]
fn new_machine_is_zeroed_and_running() {
    let gb = Gameboy::new();
    assert_eq!(gb.cpu.get_pc(), 0x0000);
    assert_eq!(gb.cpu.get_sp(), 0x0000);
    assert_eq!(gb.cpu.cycles, 0);
    assert!(gb.cpu.is_running);
    assert_eq!(gb.cpu.registers.get_a(), 0);
    assert_eq!(gb.cpu.registers.get_hl(), 0);
    assert!(!gb.cpu.registers.get_f().get_flag(Z_FLAG));
    assert!(!gb.cpu.registers.get_f().get_flag(C_FLAG));
    assert!(!gb.cpu.registers.get_f().get_flag(N_FLAG));
    assert!(!gb.cpu.registers.get_f().get_flag(H_FLAG));
}
