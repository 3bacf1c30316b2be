use dendynes::addressing::MemoryAccessMode;
use dendynes::bus::Bus;
use dendynes::cartridge::Cartridge;
use dendynes::cpu::{CpuInterrupt, InterruptType, StatusFlags, CPU};
use dendynes::execute::UnknownOpcode;
use dendynes::ppu::PPU;

fn rom_image(prg_banks: u8, flags: u8) -> Vec<u8> {
    let mut image = vec![0x4E, 0x45, 0x53, 0x1A, prg_banks, 0, flags, 0, 0, 0, 0, 0, 0, 0, 0, 0];
    image.extend(std::iter::repeat(0u8).take(prg_banks as usize * 0x4000));
    image
}

fn machine() -> CPU {
    let cartridge = Cartridge::new(&rom_image(1, 0)).unwrap();
    CPU::new(Bus::new(PPU::new(), cartridge))
}

fn machine_with(program: &[u8]) -> CPU {
    let mut cpu = machine();
    for (i, byte) in program.iter().enumerate() {
        cpu.bus.write_memory_u8(i as u16, *byte);
    }
    cpu
}

fn flag(cpu: &CPU, flag: u8) -> bool {
    cpu.status.contains(flag)
}

#[test]
fn power_on_state() {
    let cpu = machine();
    assert_eq!(cpu.program_pointer, 0x0000);
    assert_eq!(cpu.stack_pointer, 0xFD);
    assert_eq!(cpu.status.bits(), 0x24);
    assert_eq!(cpu.register_a, 0);
    assert_eq!(cpu.register_x, 0);
    assert_eq!(cpu.register_y, 0);
    assert_eq!(cpu.cycles, 0);
    assert_eq!(cpu.bus.cpu_cycles, 8);
}

#[test]
fn reset_loads_program_counter_from_vector() {
    let mut image = rom_image(1, 0);
    image[16 + 0x3FFC] = 0x34;
    image[16 + 0x3FFD] = 0x92;
    let cartridge = Cartridge::new(&image).unwrap();
    let mut cpu = CPU::new(Bus::new(PPU::new(), cartridge));
    assert_eq!(cpu.program_pointer, 0x9234);
    cpu.register_a = 7;
    cpu.stack_pointer = 0x10;
    cpu.status = StatusFlags::from_bits(0xFF);
    cpu.reset();
    assert_eq!(cpu.program_pointer, 0x9234);
    assert_eq!(cpu.register_a, 0);
    assert_eq!(cpu.stack_pointer, 0xFD);
    assert_eq!(cpu.status.bits(), 0x24);
    assert_eq!(cpu.bus.cpu_cycles, 16);
}

#[test]
fn lda_immediate_from_power_on() {
    let mut cpu = machine_with(&[0xA9, 0x42]);
    let elapsed = cpu.cpu_step();
    assert_eq!(elapsed, Ok(2));
    assert_eq!(cpu.register_a, 0x42);
    assert!(!flag(&cpu, StatusFlags::ZERO));
    assert!(!flag(&cpu, StatusFlags::NEGATIVE));
    assert_eq!(cpu.program_pointer, 0x0002);
    assert_eq!(cpu.cycles, 2);
}

#[test]
fn lda_sets_zero_and_negative() {
    let mut cpu = machine_with(&[0xA9, 0x00, 0xA9, 0x80]);
    cpu.cpu_step().unwrap();
    assert!(flag(&cpu, StatusFlags::ZERO));
    assert!(!flag(&cpu, StatusFlags::NEGATIVE));
    cpu.cpu_step().unwrap();
    assert!(!flag(&cpu, StatusFlags::ZERO));
    assert!(flag(&cpu, StatusFlags::NEGATIVE));
    assert_eq!(cpu.register_a, 0x80);
}

#[test]
fn adc_immediate_with_carry_in() {
    let mut cpu = machine_with(&[0x69, 0x10]);
    cpu.register_a = 0xF5;
    cpu.set_carry_status();
    cpu.cpu_step().unwrap();
    assert_eq!(cpu.register_a, 0x06);
    assert!(flag(&cpu, StatusFlags::CARRY));
    assert!(!flag(&cpu, StatusFlags::ZERO));
    assert!(!flag(&cpu, StatusFlags::NEGATIVE));
    assert!(!flag(&cpu, StatusFlags::OVERFLOW));
}

#[test]
fn adc_signed_overflow() {
    let mut cpu = machine_with(&[0x69, 0x50]);
    cpu.register_a = 0x50;
    cpu.cpu_step().unwrap();
    assert_eq!(cpu.register_a, 0xA0);
    assert!(!flag(&cpu, StatusFlags::CARRY));
    assert!(flag(&cpu, StatusFlags::NEGATIVE));
    assert!(flag(&cpu, StatusFlags::OVERFLOW));
}

#[test]
fn adc_result_zero_sets_zero() {
    let mut cpu = machine_with(&[0x69, 0xFF]);
    cpu.register_a = 0x01;
    cpu.cpu_step().unwrap();
    assert_eq!(cpu.register_a, 0x00);
    assert!(flag(&cpu, StatusFlags::CARRY));
    assert!(flag(&cpu, StatusFlags::ZERO));
}

#[test]
fn sbc_immediate_borrows() {
    let mut cpu = machine_with(&[0xE9, 0x01]);
    cpu.register_a = 0x00;
    cpu.set_carry_status();
    cpu.cpu_step().unwrap();
    assert_eq!(cpu.register_a, 0xFF);
    assert!(!flag(&cpu, StatusFlags::CARRY));
    assert!(flag(&cpu, StatusFlags::NEGATIVE));
    assert!(!flag(&cpu, StatusFlags::OVERFLOW));
}

#[test]
fn sbc_without_borrow_keeps_carry() {
    let mut cpu = machine_with(&[0xE9, 0x10]);
    cpu.register_a = 0x30;
    cpu.set_carry_status();
    cpu.cpu_step().unwrap();
    assert_eq!(cpu.register_a, 0x20);
    assert!(flag(&cpu, StatusFlags::CARRY));
}

#[test]
fn jmp_indirect_wraps_within_page() {
    let mut cpu = machine_with(&[0x6C, 0xFF, 0x02]);
    cpu.bus.write_memory_u8(0x02FF, 0x34);
    cpu.bus.write_memory_u8(0x0200, 0x12);
    cpu.bus.write_memory_u8(0x0300, 0x56);
    let elapsed = cpu.cpu_step();
    assert_eq!(elapsed, Ok(5));
    assert_eq!(cpu.program_pointer, 0x1234);
}

#[test]
fn jmp_indirect_without_wrap() {
    let mut cpu = machine_with(&[0x6C, 0x10, 0x02]);
    cpu.bus.write_memory_u8(0x0210, 0x78);
    cpu.bus.write_memory_u8(0x0211, 0x06);
    cpu.cpu_step().unwrap();
    assert_eq!(cpu.program_pointer, 0x0678);
}

#[test]
fn jmp_absolute() {
    let mut cpu = machine_with(&[0x4C, 0x00, 0x03]);
    assert_eq!(cpu.cpu_step(), Ok(3));
    assert_eq!(cpu.program_pointer, 0x0300);
}

#[test]
fn push_then_pop_restores_byte_and_stack_pointer() {
    let mut cpu = machine();
    for value in [0x00u8, 0x01, 0x7F, 0x80, 0xFF] {
        for pointer in [0x00u8, 0x01, 0xFD, 0xFF] {
            cpu.stack_pointer = pointer;
            cpu.push_stack_u8(value);
            assert_eq!(cpu.stack_pointer, pointer.wrapping_sub(1));
            assert_eq!(cpu.bus.cpu_memory[0x100 + pointer as usize], value);
            assert_eq!(cpu.pop_stack_u8(), value);
            assert_eq!(cpu.stack_pointer, pointer);
        }
    }
}

#[test]
fn push_u16_stores_high_byte_first() {
    let mut cpu = machine();
    cpu.stack_pointer = 0xFD;
    cpu.push_stack_u16(0xBEEF);
    assert_eq!(cpu.bus.cpu_memory[0x1FD], 0xBE);
    assert_eq!(cpu.bus.cpu_memory[0x1FC], 0xEF);
    assert_eq!(cpu.stack_pointer, 0xFB);
    assert_eq!(cpu.pop_stack_u16(), 0xBEEF);
    assert_eq!(cpu.stack_pointer, 0xFD);
}

#[test]
fn php_pushes_break_and_unused_and_plp_drops_break() {
    let mut cpu = machine_with(&[0x08, 0x28]);
    cpu.status = StatusFlags::from_bits(0x81);
    assert_eq!(cpu.cpu_step(), Ok(3));
    assert_eq!(cpu.bus.cpu_memory[0x1FD], 0xB1);
    assert_eq!(cpu.status.bits(), 0x81);
    cpu.bus.write_memory_u8(0x01FD, 0xDF);
    assert_eq!(cpu.cpu_step(), Ok(4));
    assert_eq!(cpu.status.bits(), 0xEF);
}

#[test]
fn pha_and_pla() {
    let mut cpu = machine_with(&[0x48, 0xA9, 0x00, 0x68]);
    cpu.register_a = 0x9C;
    cpu.cpu_step().unwrap();
    cpu.cpu_step().unwrap();
    assert_eq!(cpu.register_a, 0);
    cpu.cpu_step().unwrap();
    assert_eq!(cpu.register_a, 0x9C);
    assert!(flag(&cpu, StatusFlags::NEGATIVE));
    assert!(!flag(&cpu, StatusFlags::ZERO));
}

#[test]
fn branch_not_taken_costs_two_cycles() {
    let mut cpu = machine_with(&[0xD0, 0x10]);
    cpu.set_zero_status();
    assert_eq!(cpu.cpu_step(), Ok(2));
    assert_eq!(cpu.program_pointer, 0x0002);
}

#[test]
fn branch_taken_costs_one_more_cycle() {
    let mut cpu = machine_with(&[0xD0, 0x10]);
    cpu.clear_zero_status();
    assert_eq!(cpu.cpu_step(), Ok(3));
    assert_eq!(cpu.program_pointer, 0x0012);
}

#[test]
fn branch_backwards_over_a_page_costs_two_more_cycles() {
    let mut cpu = machine_with(&[0xF0, 0xFC]);
    cpu.set_zero_status();
    assert_eq!(cpu.cpu_step(), Ok(4));
    assert_eq!(cpu.program_pointer, 0xFFFE);
}

#[test]
fn every_branch_follows_its_flag() {
    let cases: [(u8, u8, bool); 8] = [
        (0x90, StatusFlags::CARRY, false),
        (0xB0, StatusFlags::CARRY, true),
        (0xF0, StatusFlags::ZERO, true),
        (0xD0, StatusFlags::ZERO, false),
        (0x30, StatusFlags::NEGATIVE, true),
        (0x10, StatusFlags::NEGATIVE, false),
        (0x50, StatusFlags::OVERFLOW, false),
        (0x70, StatusFlags::OVERFLOW, true),
    ];
    for (opcode, bit, taken_when_set) in cases {
        for set in [false, true] {
            let mut cpu = machine_with(&[opcode, 0x04]);
            cpu.status = StatusFlags::from_bits(if set { 0x20 | bit } else { 0x20 });
            cpu.cpu_step().unwrap();
            let taken = set == taken_when_set;
            assert_eq!(cpu.program_pointer, if taken { 0x0006 } else { 0x0002 });
        }
    }
}

#[test]
fn absolute_x_read_pays_for_page_crossing() {
    let mut cpu = machine_with(&[0xBD, 0xFF, 0x02, 0xBD, 0x00, 0x02]);
    cpu.register_x = 1;
    cpu.bus.write_memory_u8(0x0300, 0x5A);
    cpu.bus.write_memory_u8(0x0201, 0xA5);
    assert_eq!(cpu.cpu_step(), Ok(5));
    assert_eq!(cpu.register_a, 0x5A);
    assert_eq!(cpu.cpu_step(), Ok(4));
    assert_eq!(cpu.register_a, 0xA5);
}

#[test]
fn absolute_x_store_never_pays_for_page_crossing() {
    let mut cpu = machine_with(&[0x9D, 0xFF, 0x02]);
    cpu.register_x = 1;
    cpu.register_a = 0x77;
    assert_eq!(cpu.cpu_step(), Ok(5));
    assert_eq!(cpu.bus.cpu_memory[0x300], 0x77);
}

#[test]
fn zero_page_x_wraps_within_zero_page() {
    let mut cpu = machine_with(&[0xB5, 0xF0]);
    cpu.register_x = 0x20;
    cpu.bus.write_memory_u8(0x0010, 0x3C);
    cpu.bus.write_memory_u8(0x0110, 0xEE);
    assert_eq!(cpu.cpu_step(), Ok(4));
    assert_eq!(cpu.register_a, 0x3C);
}

#[test]
fn indirect_x_wraps_pointer_in_zero_page() {
    let mut cpu = machine();
    cpu.program_pointer = 0x0200;
    cpu.bus.write_memory_u8(0x0200, 0xA1);
    cpu.bus.write_memory_u8(0x0201, 0xFE);
    cpu.register_x = 0x01;
    cpu.bus.write_memory_u8(0x00FF, 0x00);
    cpu.bus.write_memory_u8(0x0000, 0x04);
    cpu.bus.write_memory_u8(0x0400, 0x99);
    assert_eq!(cpu.cpu_step(), Ok(6));
    assert_eq!(cpu.register_a, 0x99);
}

#[test]
fn indirect_y_adds_y_after_the_pointer_read() {
    let mut cpu = machine_with(&[0xB1, 0x40, 0xB1, 0x42]);
    cpu.register_y = 0x10;
    cpu.bus.write_memory_u8(0x0040, 0x00);
    cpu.bus.write_memory_u8(0x0041, 0x03);
    cpu.bus.write_memory_u8(0x0310, 0x21);
    cpu.bus.write_memory_u8(0x0042, 0xF8);
    cpu.bus.write_memory_u8(0x0043, 0x03);
    cpu.bus.write_memory_u8(0x0408, 0x43);
    assert_eq!(cpu.cpu_step(), Ok(5));
    assert_eq!(cpu.register_a, 0x21);
    assert_eq!(cpu.cpu_step(), Ok(6));
    assert_eq!(cpu.register_a, 0x43);
}

#[test]
fn get_opcode_data_address_for_every_mode() {
    let mut cpu = machine();
    cpu.register_a = 0x11;
    cpu.register_x = 0x02;
    cpu.register_y = 0x03;
    cpu.bus.write_memory_u8(0x0050, 0x80);
    cpu.bus.write_memory_u8(0x0051, 0x02);
    cpu.bus.write_memory_u8(0x0082, 0xCD);
    cpu.bus.write_memory_u8(0x0083, 0x06);
    cpu.bus.write_memory_u8(0x0080, 0x10);
    cpu.bus.write_memory_u8(0x0081, 0x05);
    assert_eq!(cpu.get_opcode_data_address(0x50, MemoryAccessMode::Implied, true), 0);
    assert_eq!(cpu.get_opcode_data_address(0x50, MemoryAccessMode::Immediate, true), 0x50);
    assert_eq!(cpu.get_opcode_data_address(0x50, MemoryAccessMode::Accumulator, true), 0x11);
    assert_eq!(cpu.get_opcode_data_address(0x50, MemoryAccessMode::ZeroPage, true), 0x80);
    assert_eq!(cpu.get_opcode_data_address(0x50, MemoryAccessMode::ZeroPageX, true), 0x82);
    assert_eq!(cpu.get_opcode_data_address(0x50, MemoryAccessMode::ZeroPageY, true), 0x83);
    assert_eq!(cpu.get_opcode_data_address(0x50, MemoryAccessMode::Relative(true), true), 0xFF80);
    assert_eq!(cpu.get_opcode_data_address(0x51, MemoryAccessMode::Relative(true), true), 0x0002);
    assert_eq!(cpu.get_opcode_data_address(0x50, MemoryAccessMode::Absolute, true), 0x0280);
    assert_eq!(cpu.get_opcode_data_address(0x50, MemoryAccessMode::AbsoluteX(true), true), 0x0282);
    assert_eq!(cpu.get_opcode_data_address(0x50, MemoryAccessMode::AbsoluteY(true), true), 0x0283);
    assert_eq!(cpu.get_opcode_data_address(0x50, MemoryAccessMode::IndirectX, true), 0x06CD);
    assert_eq!(cpu.get_opcode_data_address(0x50, MemoryAccessMode::IndirectY(true), true), 0x0513);
}

#[test]
fn cross_page_ticks_only_when_pages_differ() {
    let mut cpu = machine();
    let before = cpu.bus.cpu_cycles;
    cpu.cross_page(0x0200, 0x02FF);
    assert_eq!(cpu.bus.cpu_cycles, before);
    cpu.cross_page(0x02FF, 0x0300);
    assert_eq!(cpu.bus.cpu_cycles, before + 1);
}

#[test]
fn read_for_trace_never_pays_for_page_crossing() {
    let mut cpu = machine();
    cpu.register_x = 1;
    cpu.bus.write_memory_u8(0x0010, 0xFF);
    cpu.bus.write_memory_u8(0x0011, 0x02);
    cpu.bus.write_memory_u8(0x0300, 0x6B);
    let before = cpu.bus.cpu_cycles;
    assert_eq!(cpu.read_for_trace(0x10, MemoryAccessMode::AbsoluteX(true)), 0x6B);
    assert_eq!(cpu.bus.cpu_cycles, before);
    assert_eq!(cpu.read_opcode_data(0x10, MemoryAccessMode::AbsoluteX(true)), 0x6B);
    assert_eq!(cpu.bus.cpu_cycles, before + 1);
}

#[test]
fn write_opcode_result_by_mode() {
    let mut cpu = machine();
    cpu.register_a = 1;
    cpu.write_opcode_result(0x10, 0x80, MemoryAccessMode::Implied);
    assert_eq!(cpu.register_a, 1);
    cpu.write_opcode_result(0x10, 0x80, MemoryAccessMode::Accumulator);
    assert_eq!(cpu.register_a, 0x80);
    assert!(flag(&cpu, StatusFlags::NEGATIVE));
    cpu.bus.write_memory_u8(0x0010, 0x44);
    cpu.write_opcode_result(0x10, 0x5E, MemoryAccessMode::ZeroPage);
    assert_eq!(cpu.bus.cpu_memory[0x44], 0x5E);
    cpu.program_pointer = 0x0123;
    cpu.write_opcode_result(0x10, 0x6F, MemoryAccessMode::Immediate);
    assert_eq!(cpu.bus.cpu_memory[0x123], 0x6F);
}

#[test]
fn jsr_and_rts() {
    let mut cpu = machine_with(&[0x20, 0x00, 0x03]);
    cpu.bus.write_memory_u8(0x0300, 0x60);
    assert_eq!(cpu.cpu_step(), Ok(6));
    assert_eq!(cpu.program_pointer, 0x0300);
    assert_eq!(cpu.bus.cpu_memory[0x1FD], 0x00);
    assert_eq!(cpu.bus.cpu_memory[0x1FC], 0x02);
    assert_eq!(cpu.stack_pointer, 0xFB);
    assert_eq!(cpu.cpu_step(), Ok(6));
    assert_eq!(cpu.program_pointer, 0x0003);
    assert_eq!(cpu.stack_pointer, 0xFD);
}

#[test]
fn brk_is_suppressed_while_interrupts_are_disabled() {
    let mut cpu = machine_with(&[0x00, 0x00]);
    assert!(flag(&cpu, StatusFlags::INTERRUPT_DISABLE));
    assert_eq!(cpu.cpu_step(), Ok(7));
    assert_eq!(cpu.program_pointer, 0x0002);
    assert_eq!(cpu.stack_pointer, 0xFD);
}

#[test]
fn brk_pushes_return_address_and_status_with_break() {
    let mut image = rom_image(1, 0);
    image[16 + 0x3FFE] = 0x00;
    image[16 + 0x3FFF] = 0x05;
    let cartridge = Cartridge::new(&image).unwrap();
    let mut cpu = CPU::new(Bus::new(PPU::new(), cartridge));
    cpu.bus.write_memory_u8(0x0000, 0x00);
    cpu.status = StatusFlags::from_bits(0x21);
    assert_eq!(cpu.cpu_step(), Ok(8));
    assert_eq!(cpu.program_pointer, 0x0500);
    assert_eq!(cpu.bus.cpu_memory[0x1FD], 0x00);
    assert_eq!(cpu.bus.cpu_memory[0x1FC], 0x02);
    assert_eq!(cpu.bus.cpu_memory[0x1FB], 0x31);
    assert!(flag(&cpu, StatusFlags::INTERRUPT_DISABLE));
    assert!(flag(&cpu, StatusFlags::BREAK));
}

#[test]
fn rti_restores_status_and_program_counter() {
    let mut cpu = machine_with(&[0x40]);
    cpu.push_stack_u16(0x0456);
    cpu.push_stack_u8(0xD3);
    assert_eq!(cpu.cpu_step(), Ok(6));
    assert_eq!(cpu.program_pointer, 0x0456);
    assert_eq!(cpu.status.bits(), 0xE3);
    assert_eq!(cpu.stack_pointer, 0xFD);
}

#[test]
fn nmi_is_served_before_the_next_fetch() {
    let mut image = rom_image(1, 0);
    image[16 + 0x3FFA] = 0x00;
    image[16 + 0x3FFB] = 0x06;
    let cartridge = Cartridge::new(&image).unwrap();
    let mut cpu = CPU::new(Bus::new(PPU::new(), cartridge));
    cpu.bus.write_memory_u8(0x0000, 0xA9);
    cpu.bus.write_memory_u8(0x0001, 0x42);
    cpu.program_pointer = 0x0000;
    cpu.status = StatusFlags::from_bits(0x30);
    cpu.bus.ppu.nmi_interrupt = true;
    assert_eq!(cpu.cpu_step(), Ok(7));
    assert_eq!(cpu.program_pointer, 0x0600);
    assert_eq!(cpu.register_a, 0);
    assert!(!cpu.bus.ppu.nmi_interrupt);
    assert_eq!(cpu.bus.cpu_memory[0x1FD], 0x00);
    assert_eq!(cpu.bus.cpu_memory[0x1FC], 0x00);
    assert_eq!(cpu.bus.cpu_memory[0x1FB], 0x20);
    assert_eq!(cpu.stack_pointer, 0xFA);
    assert_eq!(cpu.status.bits(), 0x24);
}

#[test]
fn interrupt_constants() {
    assert_eq!(CpuInterrupt::nmi().vector_addr, 0xFFFA);
    assert_eq!(CpuInterrupt::nmi().cycles, 7);
    assert_eq!(CpuInterrupt::nmi().interrupt_type, InterruptType::NMI);
    assert_eq!(CpuInterrupt::brk().vector_addr, 0xFFFE);
    assert_eq!(CpuInterrupt::brk().cycles, 1);
    assert_eq!(CpuInterrupt::irq().vector_addr, 0xFFFE);
    assert_eq!(CpuInterrupt::irq().interrupt_type, InterruptType::IRQ);
}

#[test]
fn unknown_opcode_is_reported() {
    let mut cpu = machine_with(&[0x12]);
    assert_eq!(cpu.cpu_step(), Err(UnknownOpcode { code: 0x12 }));
    assert_eq!(cpu.program_pointer, 0x0000);
    assert_eq!(cpu.execute_opcode(), Err(UnknownOpcode { code: 0x12 }));
}

#[test]
fn stepping_is_repeatable() {
    let program = [0xA9, 0x7F, 0x69, 0x01, 0x0A, 0x85, 0x10, 0xE6, 0x10, 0xD0, 0xF5];
    let mut first = machine_with(&program);
    let mut second = machine_with(&program);
    for _ in 0..50 {
        assert_eq!(first.cpu_step(), second.cpu_step());
        assert_eq!(first.program_pointer, second.program_pointer);
        assert_eq!(first.register_a, second.register_a);
        assert_eq!(first.status, second.status);
        assert_eq!(first.bus.cpu_cycles, second.bus.cpu_cycles);
        assert_eq!(first.bus.cpu_memory[..], second.bus.cpu_memory[..]);
        assert_eq!(first.bus.ppu.cycles, second.bus.ppu.cycles);
        assert_eq!(first.bus.ppu.scanlines, second.bus.ppu.scanlines);
    }
}

#[test]
fn status_helpers_set_and_clear_single_flags() {
    let mut cpu = machine();
    cpu.status = StatusFlags::empty();
    cpu.set_carry_status();
    cpu.set_zero_status();
    cpu.set_interrupt_disable_status();
    cpu.set_decimal_mode_status();
    cpu.set_break_status();
    cpu.set_unused_status();
    cpu.set_overflow_status();
    cpu.set_negative_status();
    assert_eq!(cpu.status.bits(), 0xFF);
    cpu.clear_carry_status();
    assert_eq!(cpu.status.bits(), 0xFE);
    cpu.clear_zero_status();
    assert_eq!(cpu.status.bits(), 0xFC);
    cpu.clear_interrupt_disable_status();
    assert_eq!(cpu.status.bits(), 0xF8);
    cpu.clear_decimal_mode_status();
    assert_eq!(cpu.status.bits(), 0xF0);
    cpu.clear_break_status();
    assert_eq!(cpu.status.bits(), 0xE0);
    cpu.clear_unused_status();
    assert_eq!(cpu.status.bits(), 0xC0);
    cpu.clear_overflow_status();
    assert_eq!(cpu.status.bits(), 0x80);
    cpu.clear_negative_status();
    assert_eq!(cpu.status.bits(), 0x00);
    cpu.update_status(0);
    assert_eq!(cpu.status.bits(), StatusFlags::ZERO);
    cpu.update_status(0x90);
    assert_eq!(cpu.status.bits(), StatusFlags::NEGATIVE);
    cpu.update_negative_status(1);
    cpu.update_zero_status(1);
    assert_eq!(cpu.status.bits(), 0);
}

#[test]
fn register_helpers() {
    let mut cpu = machine();
    cpu.set_register_a(0b1100);
    cpu.or_register_a(0b0011);
    assert_eq!(cpu.register_a, 0b1111);
    cpu.and_register_a(0b0110);
    assert_eq!(cpu.register_a, 0b0110);
    cpu.xor_register_a(0b0110);
    assert_eq!(cpu.register_a, 0);
    assert!(flag(&cpu, StatusFlags::ZERO));
    cpu.set_register_x(0xFF);
    assert_eq!(cpu.register_x, 0xFF);
    assert!(flag(&cpu, StatusFlags::NEGATIVE));
    cpu.set_register_y(0x01);
    assert_eq!(cpu.register_y, 0x01);
    assert!(!flag(&cpu, StatusFlags::NEGATIVE));
}

#[test]
fn shifts_and_rotates_on_the_accumulator() {
    let mut cpu = machine_with(&[0x0A, 0x4A, 0x2A, 0x6A]);
    cpu.register_a = 0x81;
    assert_eq!(cpu.cpu_step(), Ok(2));
    assert_eq!(cpu.register_a, 0x02);
    assert!(flag(&cpu, StatusFlags::CARRY));
    cpu.register_a = 0x01;
    cpu.cpu_step().unwrap();
    assert_eq!(cpu.register_a, 0x00);
    assert!(flag(&cpu, StatusFlags::CARRY));
    assert!(flag(&cpu, StatusFlags::ZERO));
    cpu.register_a = 0x80;
    cpu.cpu_step().unwrap();
    assert_eq!(cpu.register_a, 0x01);
    assert!(flag(&cpu, StatusFlags::CARRY));
    cpu.register_a = 0x01;
    cpu.cpu_step().unwrap();
    assert_eq!(cpu.register_a, 0x80);
    assert!(flag(&cpu, StatusFlags::CARRY));
    assert!(flag(&cpu, StatusFlags::NEGATIVE));
}

#[test]
fn inc_and_dec_in_memory() {
    let mut cpu = machine_with(&[0xE6, 0x40, 0xC6, 0x41]);
    cpu.bus.write_memory_u8(0x0040, 0xFF);
    cpu.bus.write_memory_u8(0x0041, 0x00);
    assert_eq!(cpu.cpu_step(), Ok(5));
    assert_eq!(cpu.bus.cpu_memory[0x40], 0x00);
    assert!(flag(&cpu, StatusFlags::ZERO));
    assert_eq!(cpu.cpu_step(), Ok(5));
    assert_eq!(cpu.bus.cpu_memory[0x41], 0xFF);
    assert!(flag(&cpu, StatusFlags::NEGATIVE));
}

#[test]
fn compare_sets_carry_when_register_is_not_below() {
    let mut cpu = machine_with(&[0xC9, 0x10, 0xE0, 0x20, 0xC0, 0x05]);
    cpu.register_a = 0x10;
    cpu.register_x = 0x10;
    cpu.register_y = 0x06;
    cpu.cpu_step().unwrap();
    assert!(flag(&cpu, StatusFlags::CARRY));
    assert!(flag(&cpu, StatusFlags::ZERO));
    cpu.cpu_step().unwrap();
    assert!(!flag(&cpu, StatusFlags::CARRY));
    assert!(flag(&cpu, StatusFlags::NEGATIVE));
    cpu.cpu_step().unwrap();
    assert!(flag(&cpu, StatusFlags::CARRY));
    assert!(!flag(&cpu, StatusFlags::ZERO));
    assert!(!flag(&cpu, StatusFlags::NEGATIVE));
}

#[test]
fn bit_copies_operand_bits_seven_and_six() {
    let mut cpu = machine_with(&[0x24, 0x40]);
    cpu.bus.write_memory_u8(0x0040, 0xC0);
    cpu.register_a = 0x01;
    assert_eq!(cpu.cpu_step(), Ok(3));
    assert!(flag(&cpu, StatusFlags::ZERO));
    assert!(flag(&cpu, StatusFlags::NEGATIVE));
    assert!(flag(&cpu, StatusFlags::OVERFLOW));
}

#[test]
fn transfers_and_register_counts() {
    let mut cpu = machine_with(&[0xAA, 0xA8, 0xE8, 0xC8, 0xCA, 0x88, 0x8A, 0x98, 0x9A, 0xBA]);
    cpu.register_a = 0xFF;
    cpu.cpu_step().unwrap();
    assert_eq!(cpu.register_x, 0xFF);
    cpu.cpu_step().unwrap();
    assert_eq!(cpu.register_y, 0xFF);
    cpu.cpu_step().unwrap();
    assert_eq!(cpu.register_x, 0x00);
    assert!(flag(&cpu, StatusFlags::ZERO));
    cpu.cpu_step().unwrap();
    assert_eq!(cpu.register_y, 0x00);
    cpu.cpu_step().unwrap();
    assert_eq!(cpu.register_x, 0xFF);
    cpu.cpu_step().unwrap();
    assert_eq!(cpu.register_y, 0xFF);
    cpu.register_x = 0x31;
    cpu.cpu_step().unwrap();
    assert_eq!(cpu.register_a, 0x31);
    cpu.register_y = 0x32;
    cpu.cpu_step().unwrap();
    assert_eq!(cpu.register_a, 0x32);
    cpu.register_x = 0x80;
    let status = cpu.status;
    cpu.cpu_step().unwrap();
    assert_eq!(cpu.stack_pointer, 0x80);
    assert_eq!(cpu.status, status);
    cpu.stack_pointer = 0x00;
    cpu.cpu_step().unwrap();
    assert_eq!(cpu.register_x, 0x00);
    assert!(flag(&cpu, StatusFlags::ZERO));
}

#[test]
fn flag_instructions() {
    let mut cpu = machine_with(&[0x38, 0xF8, 0x78, 0x18, 0xD8, 0x58, 0xB8]);
    cpu.status = StatusFlags::from_bits(0x60);
    cpu.cpu_step().unwrap();
    cpu.cpu_step().unwrap();
    cpu.cpu_step().unwrap();
    assert_eq!(cpu.status.bits(), 0x6D);
    cpu.cpu_step().unwrap();
    cpu.cpu_step().unwrap();
    cpu.cpu_step().unwrap();
    cpu.cpu_step().unwrap();
    assert_eq!(cpu.status.bits(), 0x20);
}

#[test]
fn unofficial_lax_and_axs() {
    let mut cpu = machine_with(&[0xA7, 0x40, 0x87, 0x41]);
    cpu.bus.write_memory_u8(0x0040, 0xF3);
    cpu.cpu_step().unwrap();
    assert_eq!(cpu.register_a, 0xF3);
    assert_eq!(cpu.register_x, 0xF3);
    cpu.register_a = 0x0F;
    cpu.register_x = 0x3C;
    cpu.cpu_step().unwrap();
    assert_eq!(cpu.bus.cpu_memory[0x41], 0x0C);
}

#[test]
fn unofficial_read_modify_write_combinations() {
    let mut cpu = machine_with(&[0x07, 0x40, 0xC7, 0x41, 0xE7, 0x42, 0x47, 0x43]);
    cpu.bus.write_memory_u8(0x0040, 0x41);
    cpu.register_a = 0x01;
    assert_eq!(cpu.cpu_step(), Ok(5));
    assert_eq!(cpu.bus.cpu_memory[0x40], 0x82);
    assert_eq!(cpu.register_a, 0x83);
    cpu.bus.write_memory_u8(0x0041, 0x84);
    cpu.cpu_step().unwrap();
    assert_eq!(cpu.bus.cpu_memory[0x41], 0x83);
    assert!(flag(&cpu, StatusFlags::CARRY));
    assert!(flag(&cpu, StatusFlags::ZERO));
    cpu.bus.write_memory_u8(0x0042, 0x02);
    cpu.cpu_step().unwrap();
    assert_eq!(cpu.bus.cpu_memory[0x42], 0x03);
    assert_eq!(cpu.register_a, 0x80);
    cpu.bus.write_memory_u8(0x0043, 0x03);
    cpu.cpu_step().unwrap();
    assert_eq!(cpu.bus.cpu_memory[0x43], 0x01);
    assert_eq!(cpu.register_a, 0x81);
}

#[test]
fn skipped_bytes_and_nops_only_move_on() {
    let mut cpu = machine_with(&[0xEA, 0x80, 0x55, 0x0C, 0x00, 0x02, 0x1A]);
    let status = cpu.status;
    assert_eq!(cpu.cpu_step(), Ok(2));
    assert_eq!(cpu.program_pointer, 1);
    assert_eq!(cpu.cpu_step(), Ok(2));
    assert_eq!(cpu.program_pointer, 3);
    assert_eq!(cpu.cpu_step(), Ok(4));
    assert_eq!(cpu.program_pointer, 6);
    assert_eq!(cpu.cpu_step(), Ok(2));
    assert_eq!(cpu.program_pointer, 7);
    assert_eq!(cpu.status, status);
    assert_eq!(cpu.register_a, 0);
}

#[test]
fn map_address_without_memory() {
    let mut cpu = machine();
    cpu.program_pointer = 0x0300;
    cpu.register_a = 0x12;
    cpu.register_x = 0x10;
    cpu.register_y = 0x20;
    assert_eq!(MemoryAccessMode::Implied.map_address(&mut cpu, 0xF5), 0x0300);
    assert_eq!(MemoryAccessMode::Immediate.map_address(&mut cpu, 0xF5), 0x0301);
    assert_eq!(MemoryAccessMode::Accumulator.map_address(&mut cpu, 0xF5), 0x0012);
    assert_eq!(MemoryAccessMode::ZeroPage.map_address(&mut cpu, 0xF5), 0x00F5);
    assert_eq!(MemoryAccessMode::ZeroPageX.map_address(&mut cpu, 0xF5), 0x0005);
    assert_eq!(MemoryAccessMode::ZeroPageY.map_address(&mut cpu, 0xF5), 0x0015);
    assert_eq!(MemoryAccessMode::Absolute.map_address(&mut cpu, 0xF5), 0);
    let before = cpu.bus.cpu_cycles;
    assert_eq!(MemoryAccessMode::Relative(false).map_address(&mut cpu, 0xF5), 0x02FF);
    assert_eq!(cpu.bus.cpu_cycles, before);
    assert_eq!(MemoryAccessMode::Relative(true).map_address(&mut cpu, 0xF5), 0x02FF);
    assert_eq!(cpu.bus.cpu_cycles, before + 1);
}

#[test]
fn rol_and_ror_in_memory_follow_zero_and_negative() {
    let mut cpu = machine_with(&[0x26, 0x40, 0x66, 0x41]);
    cpu.bus.write_memory_u8(0x0040, 0x80);
    cpu.bus.write_memory_u8(0x0041, 0x01);
    assert_eq!(cpu.cpu_step(), Ok(5));
    assert_eq!(cpu.bus.cpu_memory[0x40], 0x00);
    assert!(flag(&cpu, StatusFlags::CARRY));
    assert!(flag(&cpu, StatusFlags::ZERO));
    assert_eq!(cpu.cpu_step(), Ok(5));
    assert_eq!(cpu.bus.cpu_memory[0x41], 0x80);
    assert!(flag(&cpu, StatusFlags::CARRY));
    assert!(flag(&cpu, StatusFlags::NEGATIVE));
    assert!(!flag(&cpu, StatusFlags::ZERO));
}

#[test]
fn unofficial_stores_of_anded_registers() {
    let mut cpu = machine();
    cpu.program_pointer = 0x0200;
    for (i, byte) in [0x9F, 0x00, 0x03, 0x9C, 0x00, 0x04].iter().enumerate() {
        cpu.bus.write_memory_u8(0x0200 + i as u16, *byte);
    }
    cpu.register_a = 0xFF;
    cpu.register_x = 0x0F;
    cpu.register_y = 0x00;
    assert_eq!(cpu.cpu_step(), Ok(5));
    assert_eq!(cpu.bus.cpu_memory[0x300], 0x04);
    cpu.register_y = 0x07;
    cpu.register_x = 0x00;
    assert_eq!(cpu.cpu_step(), Ok(5));
    assert_eq!(cpu.bus.cpu_memory[0x400], 0x05);
}

#[test]
fn status_flag_sets() {
    let mut status = StatusFlags::from_bits(0x24);
    assert!(status.contains(StatusFlags::UNUSED));
    assert!(status.contains(StatusFlags::INTERRUPT_DISABLE));
    assert!(!status.contains(StatusFlags::CARRY));
    status.insert(StatusFlags::CARRY);
    status.set(StatusFlags::NEGATIVE, true);
    status.set(StatusFlags::UNUSED, false);
    status.remove(StatusFlags::INTERRUPT_DISABLE);
    assert_eq!(status.bits(), 0x81);
    assert_eq!(StatusFlags::empty().bits(), 0);
}

#[test]
fn addition_and_subtraction_over_all_operands() {
    let mut cpu = machine();
    for a in [0u8, 1, 0x7F, 0x80, 0xFF] {
        for value in [0u8, 1, 0x7F, 0x80, 0xFF] {
            for carry in [false, true] {
                cpu.register_a = a;
                cpu.status = StatusFlags::from_bits(if carry { 0x21 } else { 0x20 });
                cpu.add_to_register_a(value);
                let sum = a as u16 + value as u16 + carry as u16;
                assert_eq!(cpu.register_a, sum as u8);
                assert_eq!(cpu.status.contains(StatusFlags::CARRY), sum > 255);
                assert_eq!(cpu.status.contains(StatusFlags::ZERO), sum as u8 == 0);
                assert_eq!(cpu.status.contains(StatusFlags::NEGATIVE), sum as u8 >= 0x80);
                let signed = a as i8 as i16 + value as i8 as i16 + carry as i16;
                assert_eq!(cpu.status.contains(StatusFlags::OVERFLOW), signed < -128 || signed > 127);
                cpu.register_a = a;
                cpu.status = StatusFlags::from_bits(if carry { 0x21 } else { 0x20 });
                cpu.sub_from_register_a(value);
                let difference = a as i16 - value as i16 - (1 - carry as i16);
                assert_eq!(cpu.register_a, difference as u8);
                assert_eq!(cpu.status.contains(StatusFlags::CARRY), difference >= 0);
            }
        }
    }
}
