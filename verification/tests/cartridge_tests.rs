use dendynes::cartridge::{Cartridge, CartridgeMapperFlags, Header, Mirroring, RomParseError};
use dendynes::mappers::{
    new_mapper_by_type, CartridgeMapper, Mapper, MapperType, NROMMapper, UxRomMapper,
};

fn header(prg: u8, chr: u8, flags1: u8, flags2: u8) -> Vec<u8> {
    vec![0x4E, 0x45, 0x53, 0x1A, prg, chr, flags1, flags2, 3, 0, 0, 0, 0, 0, 0, 0]
}

fn image(prg: u8, chr: u8, flags1: u8, flags2: u8) -> Vec<u8> {
    let mut image = header(prg, chr, flags1, flags2);
    if flags1 & 0x04 != 0 {
        image.extend(std::iter::repeat(0xEEu8).take(512));
    }
    for i in 0..(prg as usize * 0x4000) {
        image.push((i % 256) as u8 ^ (i / 0x4000) as u8);
    }
    for i in 0..(chr as usize * 0x2000) {
        image.push(0x80 | (i % 128) as u8);
    }
    image
}

fn error_of(data: &[u8]) -> RomParseError {
    match Cartridge::new(data) {
        Ok(_) => panic!("the image was accepted"),
        Err(e) => e,
    }
}

#[test]
fn header_fields_are_decoded() {
    let (header, start) = Cartridge::read_header(&image(2, 1, 0x21, 0x00)).unwrap();
    assert_eq!(header.name, [0x4E, 0x45, 0x53, 0x1A]);
    assert_eq!(header.prg_banks_count, 2);
    assert_eq!(header.chr_banks_count, 1);
    assert_eq!(header.mapper_flags.bits(), 0x01);
    assert_eq!(header.prg_ram_size, 3);
    assert_eq!(header.mapper_id, 2);
    assert_eq!(header.mirroring, Mirroring::Vertical);
    assert_eq!(start, 16);
}

#[test]
fn mapper_number_takes_high_nibble_from_second_flag_byte() {
    let (header, _) = Cartridge::read_header(&image(1, 1, 0x10, 0x40)).unwrap();
    assert_eq!(header.mapper_id, 0x41);
    assert_eq!(error_of(&image(1, 1, 0x10, 0x40)), RomParseError::UnsupportedMapper(0x41));
    assert_eq!(error_of(&image(1, 1, 0x00, 0x20)), RomParseError::UnsupportedMapper(0x20));
    assert_eq!(error_of(&image(1, 1, 0x10, 0x00)), RomParseError::UnsupportedMapper(1));
}

#[test]
fn mirroring_follows_the_flag_bits() {
    let mirroring = |flags: u8| Cartridge::read_header(&image(1, 1, flags, 0)).unwrap().0.mirroring;
    assert_eq!(mirroring(0x00), Mirroring::Horizontal);
    assert_eq!(mirroring(0x01), Mirroring::Vertical);
    assert_eq!(mirroring(0x08), Mirroring::FourScreen);
    assert_eq!(mirroring(0x09), Mirroring::FourScreen);
    assert_eq!(mirroring(0x02), Mirroring::Horizontal);
}

#[test]
fn trainer_is_skipped() {
    let data = image(1, 1, 0x04, 0);
    let (header, start) = Cartridge::read_header(&data).unwrap();
    assert!(header.mapper_flags.contains(CartridgeMapperFlags::TRAINER));
    assert_eq!(start, 16 + 512);
    let cartridge = Cartridge::new(&data).unwrap();
    assert_eq!(cartridge.prg_memory.len(), 0x4000);
    assert_eq!(cartridge.prg_memory[0], 0x00);
    assert_eq!(cartridge.prg_memory[5], 0x05);
    assert_eq!(cartridge.chr_memory[0], 0x80);
}

#[test]
fn banks_are_split() {
    let cartridge = Cartridge::new(&image(2, 1, 0x00, 0)).unwrap();
    assert_eq!(cartridge.prg_memory.len(), 0x8000);
    assert_eq!(cartridge.chr_memory.len(), 0x2000);
    assert_eq!(cartridge.prg_memory[0x4001], 0x00);
    assert_eq!(cartridge.prg_memory[0x4002], 0x03);
    assert_eq!(cartridge.chr_memory[0x7F], 0xFF);
    assert_eq!(cartridge.mapper_type, MapperType::NROM);
    assert_eq!(cartridge.prg_banks_count, 2);
    assert_eq!(cartridge.chr_banks_count, 1);
    assert_eq!(cartridge.mirroring, Mirroring::Horizontal);
    assert_eq!(cartridge.header.prg_banks_count, 2);
    let (prg, chr) = Cartridge::read_rom_data(&image(2, 1, 0, 0), &cartridge.header, 16).unwrap();
    assert_eq!(prg, cartridge.prg_memory);
    assert_eq!(chr, cartridge.chr_memory);
}

#[test]
fn a_cartridge_without_character_banks_gets_eight_kib_of_ram() {
    let cartridge = Cartridge::new(&image(1, 0, 0x20, 0)).unwrap();
    assert_eq!(cartridge.chr_memory.len(), 0x2000);
    assert!(cartridge.chr_memory.iter().all(|byte| *byte == 0));
    assert_eq!(cartridge.mapper_type, MapperType::UxRom);
}

#[test]
fn bad_magic_is_rejected() {
    let mut data = image(1, 1, 0, 0);
    data[3] = 0x1B;
    assert_eq!(error_of(&data), RomParseError::BadMagic);
    data[3] = 0x1A;
    data[0] = b'M';
    assert_eq!(error_of(&data), RomParseError::BadMagic);
}

#[test]
fn short_images_are_rejected() {
    let data = image(1, 1, 0, 0);
    assert_eq!(error_of(&[]), RomParseError::ShortBuffer);
    assert_eq!(error_of(&data[..3]), RomParseError::ShortBuffer);
    assert_eq!(error_of(&data[..7]), RomParseError::ShortBuffer);
    assert_eq!(error_of(&data[..15]), RomParseError::ShortBuffer);
    assert_eq!(error_of(&data[..16]), RomParseError::ShortBuffer);
    assert_eq!(error_of(&data[..data.len() - 1]), RomParseError::ShortBuffer);
    assert!(Cartridge::new(&data).is_ok());
    let with_trainer = image(0, 0, 0x04, 0);
    assert_eq!(error_of(&with_trainer[..16 + 511]), RomParseError::ShortBuffer);
    assert!(Cartridge::new(&with_trainer).is_ok());
}

#[test]
fn short_magic_is_reported_before_bad_magic() {
    assert_eq!(error_of(&[0, 0, 0]), RomParseError::ShortBuffer);
    assert_eq!(error_of(&[0, 0, 0, 0]), RomParseError::BadMagic);
}

#[test]
fn later_header_format_is_rejected() {
    assert_eq!(error_of(&image(1, 1, 0, 0x08)), RomParseError::Nes2Format);
    assert_eq!(error_of(&header(1, 1, 0, 0x08)[..8]), RomParseError::Nes2Format);
    assert!(Cartridge::new(&image(1, 1, 0, 0x04)).is_ok());
    assert!(Cartridge::new(&image(1, 1, 0, 0x0C)).is_ok());
}

#[test]
fn uxrom_needs_a_program_bank() {
    assert_eq!(error_of(&image(0, 1, 0x20, 0)), RomParseError::NoProgramBanks);
    assert!(Cartridge::new(&image(0, 1, 0x00, 0)).is_ok());
}

#[test]
fn four_screen_images_still_make_a_cartridge() {
    let cartridge = Cartridge::new(&image(1, 1, 0x08, 0)).unwrap();
    assert_eq!(cartridge.mirroring, Mirroring::FourScreen);
}

#[test]
fn mapper_type_numbers() {
    assert_eq!(MapperType::from_id(0), Some(MapperType::NROM));
    assert_eq!(MapperType::from_id(2), Some(MapperType::UxRom));
    assert_eq!(MapperType::from_id(1), None);
    assert_eq!(MapperType::from_id(32), None);
    assert_eq!(MapperType::NROM.id(), 0);
    assert_eq!(MapperType::UxRom.id(), 2);
}

fn settings(prg: u8, chr: u8) -> Header {
    Cartridge::read_header(&header(prg, chr, 0, 0)).unwrap().0
}

#[test]
fn nrom_wraps_program_and_character_memory() {
    let mut one = NROMMapper::new(settings(1, 1));
    assert_eq!(one.map_cpu_read(0x8000), 0);
    assert_eq!(one.map_cpu_read(0xC000), 0);
    assert_eq!(one.map_cpu_read(0xFFFF), 0x3FFF);
    let two = NROMMapper::new(settings(2, 2));
    assert_eq!(two.map_cpu_read(0x8000), 0);
    assert_eq!(two.map_cpu_read(0xC000), 0x4000);
    assert_eq!(two.map_cpu_read(0xFFFF), 0x7FFF);
    assert_eq!(two.map_ppu_read(0x1FFF), 0x1FFF);
    assert_eq!(two.map_ppu_read(0x2001), 0x2001);
    assert_eq!(one.map_ppu_read(0x2001), 0x0001);
    assert_eq!(one.map_ppu_write(0x2001, 9), 0x0001);
    assert_eq!(one.map_cpu_write(0x8123, 9), 0x8123);
    assert!(!one.has_ram());
    one.scanline();
    assert_eq!(one, NROMMapper::new(settings(1, 1)));
    let none = NROMMapper::new(settings(0, 0));
    assert_eq!(none.map_cpu_read(0xC005), 5);
    assert_eq!(none.map_ppu_read(0x3005), 0x1005);
}

#[test]
fn uxrom_switches_the_low_bank_and_fixes_the_last() {
    let mut mapper = UxRomMapper::new(settings(8, 0));
    assert_eq!(mapper.bank_select_register, 0);
    assert_eq!(mapper.bank_select_count_register, 7);
    assert_eq!(mapper.map_cpu_read(0x8001), 0x0001);
    assert_eq!(mapper.map_cpu_read(0xC001), 7 * 0x4000 + 1);
    assert_eq!(mapper.map_cpu_write(0x9000, 0xF3), 0x9000);
    assert_eq!(mapper.bank_select_register, 3);
    assert_eq!(mapper.map_cpu_read(0xBFFF), 3 * 0x4000 + 0x3FFF);
    assert_eq!(mapper.map_cpu_read(0xFFFF), 7 * 0x4000 + 0x3FFF);
    assert_eq!(mapper.map_cpu_read(0x6000), 0x6000);
    mapper.map_cpu_write(0x7FFF, 0x05);
    assert_eq!(mapper.bank_select_register, 3);
    assert_eq!(mapper.map_ppu_read(0x1234), 0x1234);
    assert_eq!(mapper.map_ppu_write(0x1234, 1), 0x1234);
    assert!(mapper.has_ram());
    mapper.scanline();
    assert_eq!(mapper.bank_select_register, 3);
}

#[test]
fn mapper_is_chosen_by_type() {
    let nrom = new_mapper_by_type(MapperType::NROM, settings(2, 1));
    assert_eq!(nrom, CartridgeMapper::Nrom(NROMMapper { prg_banks_count: 2, chr_banks_count: 1 }));
    let mut uxrom = new_mapper_by_type(MapperType::UxRom, settings(4, 0));
    assert_eq!(uxrom.map_cpu_read(0xC000), 3 * 0x4000);
    uxrom.map_cpu_write(0x8000, 2);
    assert_eq!(uxrom.map_cpu_read(0x8000), 2 * 0x4000);
    assert!(uxrom.has_ram());
    assert!(!nrom.has_ram());
    assert_eq!(nrom.map_ppu_read(0x2000), 0);
    assert_eq!(nrom.map_cpu_read(0x8000), 0);
}

#[test]
fn cartridge_reads_and_writes() {
    let mut nrom = Cartridge::new(&image(1, 1, 0x00, 0)).unwrap();
    assert_eq!(nrom.cpu_read_u8(0x8003), 0x03);
    assert_eq!(nrom.cpu_read_u8(0xC003), 0x03);
    assert_eq!(nrom.ppu_read_u8(0x0003), 0x83);
    nrom.ppu_write_u8(0x0003, 0x11);
    assert_eq!(nrom.ppu_read_u8(0x0003), 0x83);
    nrom.cpu_write_u8(0x8003, 0x11);
    assert_eq!(nrom.cpu_read_u8(0x8003), 0x03);
    nrom.scanline();
    let mut uxrom = Cartridge::new(&image(2, 0, 0x20, 0)).unwrap();
    uxrom.ppu_write_u8(0x0003, 0x11);
    assert_eq!(uxrom.ppu_read_u8(0x0003), 0x11);
    uxrom.ppu_write_u8(0x2003, 0x22);
    assert_eq!(uxrom.ppu_read_u8(0x2003), 0x00);
    assert_eq!(uxrom.cpu_read_u8(0x8002), 0x02);
    assert_eq!(uxrom.cpu_read_u8(0xC002), 0x03);
    uxrom.cpu_write_u8(0x8000, 0x01);
    assert_eq!(uxrom.cpu_read_u8(0x8002), 0x03);
    uxrom.cpu_write_u8(0x8000, 0x05);
    assert_eq!(uxrom.cpu_read_u8(0x8002), 0x00);
    assert_eq!(uxrom.cpu_read_u8(0x4020), 0x21);
}
