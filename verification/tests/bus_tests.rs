use dendynes::bus::Bus;
use dendynes::cartridge::Cartridge;
use dendynes::joypad::JoypadButtons;
use dendynes::oam::OamSprite;
use dendynes::ppu::PPU;
use dendynes::registers::Status;

fn image(mapper_low: u8, prg_banks: u8) -> Vec<u8> {
    let mut image = vec![0x4E, 0x45, 0x53, 0x1A, prg_banks, 0, mapper_low << 4, 0, 0, 0, 0, 0, 0, 0, 0, 0];
    for bank in 0..prg_banks as usize {
        for i in 0..0x4000usize {
            image.push(((bank * 16 + i) % 253) as u8);
        }
    }
    image
}

fn bus() -> Bus {
    Bus::new(PPU::new(), Cartridge::new(&image(0, 1)).unwrap())
}

#[test]
fn work_ram_repeats_every_two_kib() {
    let mut bus = bus();
    bus.write_memory_u8(0x0005, 0x9A);
    assert_eq!(bus.read_memory_u8(0x0805), 0x9A);
    assert_eq!(bus.read_memory_u8(0x1005), 0x9A);
    assert_eq!(bus.read_memory_u8(0x1805), 0x9A);
    bus.write_memory_u8(0x1FFF, 0x31);
    assert_eq!(bus.read_memory_u8(0x07FF), 0x31);
    assert_eq!(bus.cpu_memory[0x7FF], 0x31);
}

#[test]
fn sixteen_bit_access_is_little_endian() {
    let mut bus = bus();
    bus.write_memory_u16(0x0010, 0xBEEF);
    assert_eq!(bus.read_memory_u8(0x0010), 0xEF);
    assert_eq!(bus.read_memory_u8(0x0011), 0xBE);
    assert_eq!(bus.read_memory_u16(0x0010), 0xBEEF);
}

#[test]
fn write_only_ports_and_sound_registers_read_zero() {
    let mut bus = bus();
    bus.ppu.data_buffer = 0xFF;
    for address in [0x2000u16, 0x2001, 0x2003, 0x2005, 0x2006, 0x4000, 0x4014, 0x4015, 0x4018, 0x401F] {
        assert_eq!(bus.read_memory_u8(address), 0);
    }
}

#[test]
fn ports_are_mirrored_up_to_3fff() {
    let mut bus = bus();
    bus.write_memory_u8(0x2008, 0x80);
    assert_eq!(bus.ppu.control_register.bits(), 0x80);
    bus.write_memory_u8(0x3FF9, 0x1E);
    assert_eq!(bus.ppu.mask_register.bits(), 0x1E);
    bus.ppu.status_register = Status::from_bits(0x80);
    assert_eq!(bus.read_memory_u8(0x3FFA), 0x80);
    assert_eq!(bus.ppu.status_register.bits(), 0x00);
    bus.write_memory_u8(0x2002, 0xFF);
    assert_eq!(bus.ppu.status_register.bits(), 0x00);
}

#[test]
fn ports_reach_the_picture_unit() {
    let mut bus = bus();
    bus.write_memory_u8(0x2003, 0x04);
    bus.write_memory_u8(0x2004, 0x55);
    assert_eq!(bus.ppu.oam_sprites[1].y, 0x55);
    bus.write_memory_u8(0x2003, 0x04);
    assert_eq!(bus.read_memory_u8(0x2004), 0x55);
    bus.write_memory_u8(0x2005, 0x7D);
    assert_eq!(bus.ppu.fine_x, 5);
    bus.write_memory_u8(0x2005, 0x00);
    bus.write_memory_u8(0x2006, 0x21);
    bus.write_memory_u8(0x2006, 0x08);
    bus.write_memory_u8(0x2007, 0xAA);
    bus.write_memory_u8(0x2007, 0xBB);
    bus.write_memory_u8(0x2006, 0x21);
    bus.write_memory_u8(0x2006, 0x08);
    bus.ppu.data_buffer = 0x77;
    assert_eq!(bus.read_memory_u8(0x2007), 0x77);
    assert_eq!(bus.read_memory_u8(0x2007), 0xAA);
    assert_eq!(bus.read_memory_u8(0x2007), 0xBB);
}

#[test]
fn cartridge_is_read_from_4020_up() {
    let mut bus = bus();
    assert_eq!(bus.read_memory_u8(0x8000), 0);
    assert_eq!(bus.read_memory_u8(0x8005), 5);
    assert_eq!(bus.read_memory_u8(0xC005), 5);
    assert_eq!(bus.read_memory_u8(0x4020), (0x20 % 253) as u8);
    bus.write_memory_u8(0x8005, 0xEE);
    assert_eq!(bus.read_memory_u8(0x8005), 5);
}

#[test]
fn uxrom_bank_switching_through_the_bus() {
    let mut bus = Bus::new(PPU::new(), Cartridge::new(&image(2, 4)).unwrap());
    assert_eq!(bus.read_memory_u8(0x8000), 0);
    assert_eq!(bus.read_memory_u8(0xC000), 48);
    bus.write_memory_u8(0x8000, 0xF2);
    assert_eq!(bus.read_memory_u8(0x8000), 32);
    assert_eq!(bus.read_memory_u8(0xC000), 48);
    bus.write_memory_u8(0xFFFF, 0x09);
    assert_eq!(bus.read_memory_u8(0x8000), 0);
}

#[test]
fn joypads_are_strobed_and_read_through_the_bus() {
    let mut bus = bus();
    bus.joypads[0].press_button(JoypadButtons::from_bits(JoypadButtons::A | JoypadButtons::LEFT));
    bus.joypads[1].press_button(JoypadButtons::from_bits(JoypadButtons::B));
    bus.write_memory_u8(0x4016, 1);
    bus.write_memory_u8(0x4017, 1);
    let first: Vec<u8> = (0..8).map(|_| bus.read_memory_u8(0x4016)).collect();
    let second: Vec<u8> = (0..8).map(|_| bus.read_memory_u8(0x4017)).collect();
    assert_eq!(first, vec![1, 0, 0, 0, 0, 0, 1, 0]);
    assert_eq!(second, vec![0, 1, 0, 0, 0, 0, 0, 0]);
    bus.joypads[0].release_button(JoypadButtons::from_bits(JoypadButtons::A));
    bus.write_memory_u8(0x4016, 0);
    assert_eq!(bus.read_memory_u8(0x4016), 0);
}

#[test]
fn tick_runs_three_dots_per_cycle() {
    let mut bus = bus();
    bus.tick(5);
    assert_eq!(bus.cpu_cycles, 5);
    assert_eq!(bus.ppu.cycles, 15);
    assert_eq!(bus.ppu.total_cycles, 15);
    bus.tick(0);
    assert_eq!(bus.cpu_cycles, 5);
    assert_eq!(bus.ppu.cycles, 15);
    bus.tick(200);
    assert_eq!(bus.cpu_cycles, 205);
    assert_eq!((bus.ppu.scanlines, bus.ppu.cycles), (1, 615 - 341));
}

#[test]
fn interrupt_line() {
    let mut bus = bus();
    assert!(!bus.poll_nmi_interrupt());
    bus.ppu.nmi_interrupt = true;
    assert!(bus.poll_nmi_interrupt());
    assert!(bus.poll_nmi_interrupt());
    bus.nmi_handled();
    assert!(!bus.poll_nmi_interrupt());
    bus.load_rom();
    assert_eq!(bus.cpu_cycles, 0);
}

fn fill_page_two(bus: &mut Bus) {
    for i in 0..256u16 {
        bus.write_memory_u8(0x0200 + i, (i as u8).wrapping_mul(7).wrapping_add(3));
    }
}

fn oam_bytes(bus: &Bus) -> Vec<u8> {
    let mut bytes = Vec::new();
    for sprite in bus.ppu.oam_sprites.iter() {
        bytes.extend([sprite.y, sprite.id, sprite.attribute, sprite.x]);
    }
    bytes
}

#[test]
fn sprite_transfer_on_an_odd_cycle_takes_514_cycles() {
    let mut bus = bus();
    fill_page_two(&mut bus);
    bus.tick(1);
    assert_eq!(bus.cpu_cycles % 2, 1);
    let before = bus.cpu_cycles;
    bus.write_memory_u8(0x4014, 0x02);
    assert_eq!(bus.cpu_cycles - before, 514);
    assert_eq!(oam_bytes(&bus), bus.cpu_memory[0x200..0x300].to_vec());
    assert_eq!(bus.ppu.oam_address_register, 0);
}

#[test]
fn sprite_transfer_on_an_even_cycle_takes_513_cycles() {
    let mut bus = bus();
    fill_page_two(&mut bus);
    let before = bus.cpu_cycles;
    bus.write_memory_u8(0x4014, 0x02);
    assert_eq!(bus.cpu_cycles - before, 513);
    assert_eq!(oam_bytes(&bus), bus.cpu_memory[0x200..0x300].to_vec());
}

#[test]
fn sprite_transfer_starts_at_the_oam_address() {
    let mut bus = bus();
    fill_page_two(&mut bus);
    bus.write_memory_u8(0x2003, 0x08);
    bus.write_memory_u8(0x4014, 0x02);
    assert_eq!(bus.ppu.oam_address_register, 0x08);
    assert_eq!(bus.ppu.oam_sprites[2], OamSprite::new(
        bus.cpu_memory[0x203],
        bus.cpu_memory[0x200],
        bus.cpu_memory[0x201],
        bus.cpu_memory[0x202],
    ));
    assert_eq!(bus.ppu.oam_sprites[0].y, bus.cpu_memory[0x200 + 248]);
}
