use gbemu::cpu::control::Control;
use gbemu::cpu::cpu::{Fault, CPU};
use gbemu::cpu::cpu_instruction::CPUInstruction;
use gbemu::cpu::flag::{C_FLAG, H_FLAG, N_FLAG, Z_FLAG};
use gbemu::cpu::register::Register;
use gbemu::memory_bus::memory_bus::MemoryBus;

#[test]
fn increment_then_decrement_round_trips_register() {
    let mut cpu = CPU::new();
    cpu.registers.set_b(0x42);
    Control::inc_b(&mut cpu);
    assert_eq!(cpu.registers.get_b(), 0x43);
    // The increment clears the subtract flag ...
    assert!(!cpu.registers.get_f().get_flag(N_FLAG));
    Control::dec_b(&mut cpu);
    // ... the value round-trips, but the decrement sets the subtract flag.
    assert_eq!(cpu.registers.get_b(), 0x42);
    assert!(cpu.registers.get_f().get_flag(N_FLAG));
}

#[test]
fn decrement_then_increment_round_trips_register() {
    let mut cpu = CPU::new();
    cpu.registers.set_e(0x00);
    Control::dec_e(&mut cpu);
    assert_eq!(cpu.registers.get_e(), 0xFF);
    assert!(cpu.registers.get_f().get_flag(N_FLAG));
    // Decrementing zero borrows out of the low nibble.
    assert!(cpu.registers.get_f().get_flag(H_FLAG));
    Control::inc_e(&mut cpu);
    assert_eq!(cpu.registers.get_e(), 0x00);
    assert!(!cpu.registers.get_f().get_flag(N_FLAG));
    assert!(cpu.registers.get_f().get_flag(Z_FLAG));
}

#[test]
fn increment_wraps_and_preserves_carry() {
    let mut cpu = CPU::new();
    cpu.registers.set_a(0xFF);
    cpu.registers.get_f_mut().set_flag(true, C_FLAG);
    Control::inc_a(&mut cpu);
    assert_eq!(cpu.registers.get_a(), 0x00);
    assert!(cpu.registers.get_f().get_flag(Z_FLAG));
    assert!(cpu.registers.get_f().get_flag(H_FLAG));
    // The carry flag is untouched by an 8-bit increment.
    assert!(cpu.registers.get_f().get_flag(C_FLAG));
}

#[test]
fn addition_half_carry_at_nibble_boundary() {
    let mut registers = Register::new();
    registers.set_a(0x0F);
    CPUInstruction::add_a_r8(&mut registers, 0x01);
    assert_eq!(registers.get_a(), 0x10);
    assert!(registers.get_f().get_flag(H_FLAG));
    assert!(!registers.get_f().get_flag(Z_FLAG));
    assert!(!registers.get_f().get_flag(C_FLAG));
}

#[test]
fn adc_with_clear_carry_matches_plain_add() {
    let mut with_adc = Register::new();
    with_adc.set_a(0x37);
    let mut with_add = Register::new();
    with_add.set_a(0x37);
    CPUInstruction::adc_a_r8(&mut with_adc, 0x29);
    CPUInstruction::add_a_r8(&mut with_add, 0x29);
    assert_eq!(with_adc.get_a(), with_add.get_a());
    assert_eq!(with_adc.get_a(), 0x60);
    for flag in [C_FLAG, N_FLAG, H_FLAG, Z_FLAG] {
        assert_eq!(with_adc.get_f().get_flag(flag), with_add.get_f().get_flag(flag));
    }
}

#[test]
fn addition_carry_out_iff_sum_exceeds_255() {
    let mut registers = Register::new();
    registers.set_a(0xF0);
    CPUInstruction::add_a_r8(&mut registers, 0x20);
    assert_eq!(registers.get_a(), 0x10);
    assert!(registers.get_f().get_flag(C_FLAG));
    let mut registers2 = Register::new();
    registers2.set_a(0xF0);
    CPUInstruction::add_a_r8(&mut registers2, 0x0F);
    assert_eq!(registers2.get_a(), 0xFF);
    assert!(!registers2.get_f().get_flag(C_FLAG));
}

#[test]
fn adc_includes_the_carry_flag() {
    let mut registers = Register::new();
    registers.set_a(0x15);
    registers.get_f_mut().set_flag(true, C_FLAG);
    CPUInstruction::adc_a_r8(&mut registers, 0x20);
    assert_eq!(registers.get_a(), 0x36);
}

#[test]
fn add_of_hl_byte_ignores_the_carry_flag() {
    let mut registers = Register::new();
    registers.set_a(0xFF);
    registers.get_f_mut().set_flag(true, C_FLAG);
    CPUInstruction::add_a_hl(&mut registers, 0x00);
    // A plain add: the set carry flag does not join the sum.
    assert_eq!(registers.get_a(), 0xFF);
    assert!(!registers.get_f().get_flag(C_FLAG));
    assert!(!registers.get_f().get_flag(Z_FLAG));
    let mut wrapping = Register::new();
    wrapping.set_a(0xF0);
    CPUInstruction::add_a_hl(&mut wrapping, 0x20);
    assert_eq!(wrapping.get_a(), 0x10);
    assert!(wrapping.get_f().get_flag(C_FLAG));
}

#[test]
fn decimal_adjust_bcd_overflow_sets_carry_and_zero() {
    let mut cpu = CPU::new();
    cpu.registers.set_a(0x9A);
    // Additive context: subtract, carry and half-carry all clear.
    Control::daa(&mut cpu);
    assert_eq!(cpu.registers.get_a(), 0x00);
    assert!(cpu.registers.get_f().get_flag(C_FLAG));
    assert!(cpu.registers.get_f().get_flag(Z_FLAG));
    assert!(!cpu.registers.get_f().get_flag(H_FLAG));
}

#[test]
fn decimal_adjust_corrects_low_digit() {
    let mut cpu = CPU::new();
    // 0x09 + 0x01 in BCD should read 0x10.
    cpu.registers.set_a(0x09);
    CPUInstruction::add_a_r8(&mut cpu.registers, 0x01);
    Control::daa(&mut cpu);
    assert_eq!(cpu.registers.get_a(), 0x10);
    assert!(!cpu.registers.get_f().get_flag(C_FLAG));
}

#[test]
fn relative_jump_taken_lands_on_computed_target() {
    let mut bus = MemoryBus::new();
    let mut data = vec![0u8; 0x0102];
    data[0x0101] = 0xFE;  // displacement -2
    bus.rom.load(&data);
    let mut cpu = CPU::new();
    cpu.change_pc(0x0100);
    Control::jr_e8(&mut cpu, &bus);
    // 0x0100 + 2 - 2: a net no-op on the address, but the taken cost is paid.
    assert_eq!(cpu.get_pc(), 0x0100);
    assert_eq!(cpu.cycles, 12);
}

#[test]
fn relative_jump_not_taken_falls_through() {
    let mut bus = MemoryBus::new();
    let mut data = vec![0u8; 0x0102];
    data[0x0101] = 0xFE;
    bus.rom.load(&data);
    let mut cpu = CPU::new();
    cpu.change_pc(0x0100);
    // jr nz with the zero flag set does not take the jump.
    cpu.registers.get_f_mut().set_flag(true, Z_FLAG);
    Control::jr_nz_e8(&mut cpu, &bus);
    assert_eq!(cpu.get_pc(), 0x0102);
    assert_eq!(cpu.cycles, 8);
}

#[test]
fn relative_jump_forward_displacement() {
    let mut bus = MemoryBus::new();
    let mut data = vec![0u8; 0x0102];
    data[0x0101] = 0x05;
    bus.rom.load(&data);
    let mut cpu = CPU::new();
    cpu.change_pc(0x0100);
    cpu.registers.get_f_mut().set_flag(true, C_FLAG);
    Control::jr_c_e8(&mut cpu, &bus);
    assert_eq!(cpu.get_pc(), 0x0107);
    assert_eq!(cpu.cycles, 12);
}

#[test]
fn add_to_pair_preserves_zero_flag() {
    let mut cpu = CPU::new();
    cpu.registers.set_hl(0x8000);
    cpu.registers.set_bc(0x8000);
    cpu.registers.get_f_mut().set_flag(true, Z_FLAG);
    Control::add_hl_bc(&mut cpu);
    // The sum wrapped to zero and carried, yet the zero flag is preserved.
    assert_eq!(cpu.registers.get_hl(), 0x0000);
    assert!(cpu.registers.get_f().get_flag(C_FLAG));
    assert!(cpu.registers.get_f().get_flag(Z_FLAG));
    let mut cpu2 = CPU::new();
    cpu2.registers.set_hl(0x8000);
    Control::add_hl_hl(&mut cpu2);
    assert_eq!(cpu2.registers.get_hl(), 0x0000);
    assert!(cpu2.registers.get_f().get_flag(C_FLAG));
    assert!(!cpu2.registers.get_f().get_flag(Z_FLAG));
}

#[test]
fn add_to_pair_half_carry_from_low_twelve_bits() {
    let mut cpu = CPU::new();
    cpu.registers.set_hl(0x0FFF);
    cpu.registers.set_de(0x0001);
    Control::add_hl_de(&mut cpu);
    assert_eq!(cpu.registers.get_hl(), 0x1000);
    assert!(cpu.registers.get_f().get_flag(H_FLAG));
    assert!(!cpu.registers.get_f().get_flag(C_FLAG));
}

#[test]
fn pair_increment_wraps_without_touching_flags() {
    let mut cpu = CPU::new();
    cpu.registers.set_bc(0xFFFF);
    cpu.registers.get_f_mut().set_flags(true, true, true, true);
    Control::inc_bc(&mut cpu);
    assert_eq!(cpu.registers.get_bc(), 0x0000);
    for flag in [C_FLAG, N_FLAG, H_FLAG, Z_FLAG] {
        assert!(cpu.registers.get_f().get_flag(flag));
    }
    Control::dec_bc(&mut cpu);
    assert_eq!(cpu.registers.get_bc(), 0xFFFF);
}

#[test]
fn stack_pointer_increment_and_decrement() {
    let mut cpu = CPU::new();
    Control::dec_sp(&mut cpu);
    assert_eq!(cpu.get_sp(), 0xFFFF);
    Control::inc_sp(&mut cpu);
    assert_eq!(cpu.get_sp(), 0x0000);
    assert_eq!(cpu.cycles, 16);
}

#[test]
fn rotates_move_the_edge_bit_into_carry() {
    let mut cpu = CPU::new();
    cpu.registers.set_a(0x85);
    Control::rlca(&mut cpu);
    assert_eq!(cpu.registers.get_a(), 0x0B);
    assert!(cpu.registers.get_f().get_flag(C_FLAG));
    let mut cpu2 = CPU::new();
    cpu2.registers.set_a(0x01);
    Control::rrca(&mut cpu2);
    assert_eq!(cpu2.registers.get_a(), 0x80);
    assert!(cpu2.registers.get_f().get_flag(C_FLAG));
}

#[test]
fn rotates_through_carry_use_the_old_carry() {
    let mut cpu = CPU::new();
    cpu.registers.set_a(0x00);
    cpu.registers.get_f_mut().set_flag(true, C_FLAG);
    Control::rla(&mut cpu);
    assert_eq!(cpu.registers.get_a(), 0x01);
    assert!(!cpu.registers.get_f().get_flag(C_FLAG));
    let mut cpu2 = CPU::new();
    cpu2.registers.set_a(0x01);
    cpu2.registers.get_f_mut().set_flag(false, C_FLAG);
    Control::rra(&mut cpu2);
    assert_eq!(cpu2.registers.get_a(), 0x00);
    assert!(cpu2.registers.get_f().get_flag(C_FLAG));
}

#[test]
fn complement_preserves_carry_and_zero() {
    let mut cpu = CPU::new();
    cpu.registers.set_a(0x35);
    cpu.registers.get_f_mut().set_flags(true, false, false, true);
    Control::cpl(&mut cpu);
    assert_eq!(cpu.registers.get_a(), 0xCA);
    assert!(cpu.registers.get_f().get_flag(C_FLAG));
    assert!(cpu.registers.get_f().get_flag(Z_FLAG));
    assert!(cpu.registers.get_f().get_flag(N_FLAG));
    assert!(cpu.registers.get_f().get_flag(H_FLAG));
}

#[test]
fn carry_flag_instructions() {
    let mut cpu = CPU::new();
    Control::scf(&mut cpu);
    assert!(cpu.registers.get_f().get_flag(C_FLAG));
    Control::ccf(&mut cpu);
    assert!(!cpu.registers.get_f().get_flag(C_FLAG));
    Control::ccf(&mut cpu);
    assert!(cpu.registers.get_f().get_flag(C_FLAG));
}

#[test]
fn stop_clears_the_running_flag() {
    let mut cpu = CPU::new();
    assert!(cpu.is_running);
    Control::stop(&mut cpu);
    assert!(!cpu.is_running);
    assert_eq!(cpu.get_pc(), 0x0002);
}

#[test]
fn memory_increment_at_hl() {
    let mut cpu = CPU::new();
    let mut bus = MemoryBus::new();
    bus.write(0xC100, 0x0F);
    cpu.registers.set_hl(0xC100);
    assert_eq!(Control::inc_hl_(&mut cpu, &mut bus), Ok(()));
    assert_eq!(bus.read(0xC100), 0x10);
    assert!(cpu.registers.get_f().get_flag(H_FLAG));
    assert_eq!(Control::dec_hl_(&mut cpu, &mut bus), Ok(()));
    assert_eq!(bus.read(0xC100), 0x0F);
    assert!(cpu.registers.get_f().get_flag(N_FLAG));
}

#[test]
fn memory_increment_at_rom_address_faults() {
    let mut cpu = CPU::new();
    let mut bus = MemoryBus::new();
    cpu.registers.set_hl(0x1234);
    assert_eq!(Control::inc_hl_(&mut cpu, &mut bus), Err(Fault::IllegalWrite(0x1234)));
    // Nothing changed.
    assert_eq!(cpu.get_pc(), 0x0000);
    assert_eq!(cpu.cycles, 0);
}
