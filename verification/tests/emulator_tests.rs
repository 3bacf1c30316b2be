use dendynes::cartridge::RomParseError;
use dendynes::emulator::{Emulator, FRAME_STEP_LIMIT};
use dendynes::execute::UnknownOpcode;
use dendynes::joypad::JoypadButtons;

fn image(flags: u8, program: &[u8]) -> Vec<u8> {
    let mut image = vec![0x4E, 0x45, 0x53, 0x1A, 1, 1, flags, 0, 0, 0, 0, 0, 0, 0, 0, 0];
    let mut prg = vec![0u8; 0x4000];
    prg[..program.len()].copy_from_slice(program);
    prg[0x3FFA] = 0x00;
    prg[0x3FFB] = 0x90;
    prg[0x3FFC] = 0x00;
    prg[0x3FFD] = 0x80;
    prg[0x1000] = 0x40;
    image.extend(prg);
    image.extend(std::iter::repeat(0u8).take(0x2000));
    image
}

fn error_of(data: &[u8]) -> RomParseError {
    match Emulator::new(data) {
        Ok(_) => panic!("the image was accepted"),
        Err(e) => e,
    }
}

#[test]
fn a_rom_image_makes_a_machine() {
    let emulator = Emulator::new(&image(0, &[0x4C, 0x00, 0x80])).unwrap();
    assert_eq!(emulator.cpu.program_pointer, 0x8000);
    assert_eq!(emulator.cpu.bus.cpu_cycles, 8);
    assert_eq!(emulator.framebuffer().len(), 240 * 256);
    assert!(emulator.framebuffer().iter().all(|index| *index == 0));
}

#[test]
fn images_that_hold_no_machine() {
    assert_eq!(error_of(&[]), RomParseError::ShortBuffer);
    assert_eq!(error_of(&image(0x08, &[])), RomParseError::UnsupportedMirroring);
    assert_eq!(error_of(&image(0x30, &[])), RomParseError::UnsupportedMapper(3));
    let mut bad = image(0, &[]);
    bad[1] = 0;
    assert_eq!(error_of(&bad), RomParseError::BadMagic);
}

#[test]
fn run_until_frame_stops_at_each_completed_frame() {
    let mut emulator = Emulator::new(&image(0, &[0x4C, 0x00, 0x80])).unwrap();
    assert_eq!(emulator.run_until_frame(), Ok(()));
    assert!(!emulator.cpu.bus.ppu.completed_frame);
    let first = emulator.cpu.bus.cpu_cycles;
    for _ in 0..4 {
        let before = emulator.cpu.bus.cpu_cycles;
        assert_eq!(emulator.run_until_frame(), Ok(()));
        let advanced = emulator.cpu.bus.cpu_cycles - before;
        assert!(advanced >= 29778 && advanced <= 29784, "{}", advanced);
    }
    let total = emulator.cpu.bus.cpu_cycles - first;
    assert!(total >= 4 * 29780 && total <= 4 * 29781 + 3, "{}", total);
}

#[test]
fn run_until_frame_reports_an_unknown_opcode() {
    let mut emulator = Emulator::new(&image(0, &[0xEA, 0xEA, 0x02, 0x12])).unwrap();
    assert_eq!(emulator.run_until_frame(), Err(UnknownOpcode { code: 0x12 }));
    assert_eq!(emulator.cpu.program_pointer, 0x8003);
    assert!(FRAME_STEP_LIMIT >= 29781);
}

#[test]
fn one_interrupt_is_taken_per_frame() {
    let program = [
        0xA9, 0x80, 0x8D, 0x00, 0x20, 0xE6, 0x10, 0x4C, 0x05, 0x80,
    ];
    let mut data = image(0, &program);
    data[16 + 0x1000] = 0xE6;
    data[16 + 0x1001] = 0x20;
    data[16 + 0x1002] = 0x40;
    let mut emulator = Emulator::new(&data).unwrap();
    emulator.cpu.status = dendynes::cpu::StatusFlags::from_bits(0x20);
    for frame in 1..=3u8 {
        assert_eq!(emulator.run_until_frame(), Ok(()));
        assert_eq!(emulator.cpu.bus.cpu_memory[0x20], frame);
    }
    assert_eq!(emulator.cpu.stack_pointer, 0xFD);
}

#[test]
fn button_events_reach_the_controllers() {
    let mut emulator = Emulator::new(&image(0, &[0x4C, 0x00, 0x80])).unwrap();
    emulator.press(0, JoypadButtons::from_bits(JoypadButtons::START));
    emulator.press(1, JoypadButtons::from_bits(JoypadButtons::UP | JoypadButtons::B));
    assert_eq!(emulator.cpu.bus.joypads[0].buttons_pressed.bits(), 0x10);
    assert_eq!(emulator.cpu.bus.joypads[1].buttons_pressed.bits(), 0x48);
    emulator.release(1, JoypadButtons::from_bits(JoypadButtons::UP));
    emulator.release(0, JoypadButtons::from_bits(JoypadButtons::A));
    assert_eq!(emulator.cpu.bus.joypads[0].buttons_pressed.bits(), 0x10);
    assert_eq!(emulator.cpu.bus.joypads[1].buttons_pressed.bits(), 0x40);
    assert!(emulator.cpu.bus.joypads[1].buttons_pressed.contains(JoypadButtons::from_bits(0x40)));
}

#[test]
fn well_formedness_can_be_tested() {
    let mut emulator = Emulator::new(&image(0, &[0x4C, 0x00, 0x80])).unwrap();
    assert!(emulator.is_well_formed());
    assert!(emulator.cpu.is_well_formed());
    assert!(emulator.cpu.bus.is_well_formed());
    assert_eq!(emulator.run_until_frame(), Ok(()));
    assert!(emulator.is_well_formed());
    emulator.cpu.bus.ppu.cycles = 341;
    assert!(!emulator.cpu.bus.ppu.is_well_formed());
    emulator.cpu.bus.ppu.cycles = 340;
    emulator.cpu.bus.ppu.scanlines = 261;
    assert!(!emulator.is_well_formed());
    emulator.cpu.bus.ppu.scanlines = -1;
    emulator.cpu.bus.ppu.sprites_count = 9;
    assert!(!emulator.is_well_formed());
    emulator.cpu.bus.ppu.sprites_count = 8;
    emulator.cpu.bus.ppu.screen[61439] = 64;
    assert!(!emulator.is_well_formed());
    emulator.cpu.bus.ppu.screen[61439] = 63;
    assert!(emulator.is_well_formed());
    emulator.cpu.bus.cartridge.mirroring = dendynes::cartridge::Mirroring::FourScreen;
    assert!(!emulator.cpu.bus.cartridge.is_well_formed());
    assert!(!emulator.is_well_formed());
}
