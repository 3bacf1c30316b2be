use dendynes::cartridge::{Cartridge, Mirroring};
use dendynes::oam::OamSprite;
use dendynes::ppu::{nametable_offset, palette_offset, PALETTE, PPU};
use dendynes::registers::{Controller, LoopyRegister, Mask, Status};
use dendynes::render::flip_byte_util;

fn cartridge(flags: u8, chr_banks: u8) -> Cartridge {
    let mut image = vec![0x4E, 0x45, 0x53, 0x1A, 1, chr_banks, flags, 0, 0, 0, 0, 0, 0, 0, 0, 0];
    image.extend(std::iter::repeat(0u8).take(0x4000));
    for i in 0..(chr_banks as usize * 0x2000) {
        image.push((i % 251) as u8);
    }
    Cartridge::new(&image).unwrap()
}

fn horizontal() -> Cartridge {
    cartridge(0, 1)
}

fn vertical() -> Cartridge {
    cartridge(1, 1)
}

#[test]
fn palette_mirrors_read_each_other() {
    let mut cart = horizontal();
    let mut ppu = PPU::new();
    for (mirror, base) in [(0x3F10u16, 0x3F00u16), (0x3F14, 0x3F04), (0x3F18, 0x3F08), (0x3F1C, 0x3F0C)] {
        ppu.write_u8(&mut cart, mirror, 0x21);
        assert_eq!(ppu.read_u8(&cart, base), 0x21);
        ppu.write_u8(&mut cart, base, 0x17);
        assert_eq!(ppu.read_u8(&cart, mirror), 0x17);
    }
    ppu.write_u8(&mut cart, 0x3F11, 0x05);
    assert_eq!(ppu.read_u8(&cart, 0x3F01), 0x00);
    assert_eq!(ppu.read_u8(&cart, 0x3F31), 0x05);
    assert_eq!(palette_offset(0x3F1C), 0x0C);
    assert_eq!(palette_offset(0x3F1D), 0x1D);
}

#[test]
fn horizontal_mirroring_pairs_first_with_second_table() {
    let mut cart = horizontal();
    let mut ppu = PPU::new();
    ppu.write_u8(&mut cart, 0x2000, 0xA1);
    assert_eq!(ppu.read_u8(&cart, 0x2400), 0xA1);
    assert_eq!(ppu.read_u8(&cart, 0x2800), 0x00);
    ppu.write_u8(&mut cart, 0x2C05, 0xB2);
    assert_eq!(ppu.read_u8(&cart, 0x2805), 0xB2);
    assert_eq!(ppu.read_u8(&cart, 0x2005), 0x00);
    assert_eq!(ppu.read_u8(&cart, 0x3000), 0xA1);
    assert_eq!(nametable_offset(Mirroring::Horizontal, 0x2400), 0x000);
    assert_eq!(nametable_offset(Mirroring::Horizontal, 0x2800), 0x400);
    assert_eq!(nametable_offset(Mirroring::Horizontal, 0x2FFF), 0x7FF);
}

#[test]
fn vertical_mirroring_pairs_first_with_third_table() {
    let mut cart = vertical();
    let mut ppu = PPU::new();
    ppu.write_u8(&mut cart, 0x2000, 0xA1);
    assert_eq!(ppu.read_u8(&cart, 0x2800), 0xA1);
    assert_eq!(ppu.read_u8(&cart, 0x2400), 0x00);
    ppu.write_u8(&mut cart, 0x2C05, 0xB2);
    assert_eq!(ppu.read_u8(&cart, 0x2405), 0xB2);
    assert_eq!(ppu.read_u8(&cart, 0x2005), 0x00);
    assert_eq!(nametable_offset(Mirroring::Vertical, 0x2400), 0x400);
    assert_eq!(nametable_offset(Mirroring::Vertical, 0x2800), 0x000);
}

#[test]
fn internal_memory_access_uses_the_mirroring() {
    let cart = horizontal();
    let mut ppu = PPU::new();
    ppu.write_to_internal_memory(&cart, 0x2403, 0x66);
    assert_eq!(ppu.memory[3], 0x66);
    assert_eq!(ppu.read_from_internal_memory(&cart, 0x2003), 0x66);
}

#[test]
fn character_memory_is_read_through_the_cartridge() {
    let cart = horizontal();
    let ppu = PPU::new();
    assert_eq!(ppu.read_u8(&cart, 0x0000), 0);
    assert_eq!(ppu.read_u8(&cart, 0x0105), (0x105 % 251) as u8);
    assert_eq!(ppu.read_u8(&cart, 0x4105), (0x105 % 251) as u8);
}

#[test]
fn data_port_reads_lag_by_one_byte() {
    let mut cart = horizontal();
    let mut ppu = PPU::new();
    for (i, value) in [0xAAu8, 0xBB, 0xCC, 0xDD].iter().enumerate() {
        ppu.write_u8(&mut cart, 0x2108 + i as u16, *value);
    }
    ppu.data_buffer = 0x5F;
    ppu.write_address_register(0x21);
    ppu.write_address_register(0x08);
    let reads = [
        ppu.read_data_register(&cart),
        ppu.read_data_register(&cart),
        ppu.read_data_register(&cart),
        ppu.read_data_register(&cart),
    ];
    assert_eq!(reads, [0x5F, 0xAA, 0xBB, 0xCC]);
    assert_eq!(ppu.data_buffer, 0xDD);
    assert_eq!(ppu.address_register.address(), 0x210C);
}

#[test]
fn data_port_reads_palette_at_once_and_buffers_the_table_below() {
    let mut cart = horizontal();
    let mut ppu = PPU::new();
    ppu.write_u8(&mut cart, 0x3F05, 0x2A);
    ppu.write_u8(&mut cart, 0x2F05, 0x91);
    ppu.write_address_register(0x3F);
    ppu.write_address_register(0x05);
    assert_eq!(ppu.read_data_register(&cart), 0x2A);
    assert_eq!(ppu.data_buffer, 0x91);
}

#[test]
fn data_port_steps_by_thirty_two_in_vertical_mode() {
    let mut cart = horizontal();
    let mut ppu = PPU::new();
    ppu.write_control_register(Controller::VRAM_ADDRESS_INCREMENT);
    ppu.write_address_register(0x20);
    ppu.write_address_register(0x00);
    ppu.write_data_register(&mut cart, 0x11);
    ppu.write_data_register(&mut cart, 0x22);
    assert_eq!(ppu.read_u8(&cart, 0x2000), 0x11);
    assert_eq!(ppu.read_u8(&cart, 0x2020), 0x22);
    assert_eq!(ppu.address_register.address(), 0x2040);
    ppu.increment_address_register();
    assert_eq!(ppu.address_register.address(), 0x2060);
}

#[test]
fn address_port_takes_high_then_low_byte() {
    let mut ppu = PPU::new();
    ppu.write_address_register(0xFF);
    assert!(ppu.latch);
    assert_eq!(ppu.temp_address_register.address(), 0x3F00);
    assert_eq!(ppu.address_register.address(), 0x0000);
    ppu.write_address_register(0x21);
    assert!(!ppu.latch);
    assert_eq!(ppu.temp_address_register.address(), 0x3F21);
    assert_eq!(ppu.address_register.address(), 0x3F21);
}

#[test]
fn scroll_port_takes_x_then_y() {
    let mut ppu = PPU::new();
    ppu.write_scroll_register(0b1010_1101);
    assert!(ppu.latch);
    assert_eq!(ppu.fine_x, 0b101);
    assert_eq!(ppu.temp_address_register.coarse_x(), 0b10101);
    ppu.write_scroll_register(0b0110_0011);
    assert!(!ppu.latch);
    assert_eq!(ppu.temp_address_register.fine_y(), 0b011);
    assert_eq!(ppu.temp_address_register.coarse_y(), 0b01100);
    assert_eq!(ppu.address_register, LoopyRegister::new());
}

#[test]
fn control_port_copies_nametable_bits() {
    let mut ppu = PPU::new();
    ppu.write_control_register(0b1000_0010);
    assert_eq!(ppu.control_register.bits(), 0b1000_0010);
    assert_eq!(ppu.temp_address_register.nametable_x, 0);
    assert_eq!(ppu.temp_address_register.nametable_y, 1);
    ppu.write_control_register(0b0000_0001);
    assert_eq!(ppu.temp_address_register.nametable_x, 1);
    assert_eq!(ppu.temp_address_register.nametable_y, 0);
    ppu.write_mask_register(0x1E);
    assert_eq!(ppu.mask_register.bits(), 0x1E);
}

#[test]
fn status_port_clears_vertical_blank_and_toggle() {
    let mut ppu = PPU::new();
    ppu.status_register = Status::from_bits(0xE0);
    ppu.data_buffer = 0xFF;
    ppu.latch = true;
    assert_eq!(ppu.read_status_register(), 0xFF);
    assert!(!ppu.latch);
    assert_eq!(ppu.status_register.bits(), 0x60);
    ppu.data_buffer = 0x0A;
    assert_eq!(ppu.read_status_register(), 0x6A);
}

#[test]
fn oam_port_writes_move_the_address_on() {
    let mut ppu = PPU::new();
    ppu.write_oam_address_register(0xFE);
    ppu.write_oam_data_register(0x11);
    ppu.write_oam_data_register(0x22);
    ppu.write_oam_dma_register_seq(0x33);
    assert_eq!(ppu.oam_address_register, 0x01);
    assert_eq!(ppu.oam_sprites[63], OamSprite::new(0x22, 0, 0, 0x11));
    assert_eq!(ppu.oam_sprites[0].y, 0x33);
    assert_eq!(ppu.get_sprite_index(), 0);
    ppu.write_oam_address_register(0xFF);
    assert_eq!(ppu.read_oam_data_register(), 0x22);
    assert_eq!(ppu.get_oam_data_value(), 0x22);
    ppu.set_oam_data_value(0x44);
    assert_eq!(ppu.oam_address_register, 0xFF);
    assert_eq!(ppu.oam_sprites[63].x, 0x44);
    assert_eq!(ppu.get_sprite_index(), 63);
}

#[test]
fn oam_sprite_bytes_by_address() {
    let mut sprite = OamSprite::new_empty();
    sprite.set_attribute_by_address(4, 1);
    sprite.set_attribute_by_address(5, 2);
    sprite.set_attribute_by_address(6, 3);
    sprite.set_attribute_by_address(7, 4);
    assert_eq!(sprite, OamSprite::new(4, 1, 2, 3));
    assert_eq!(sprite.get_attribute_by_address(0), 1);
    assert_eq!(sprite.get_attribute_by_address(1), 2);
    assert_eq!(sprite.get_attribute_by_address(2), 3);
    assert_eq!(sprite.get_attribute_by_address(3), 4);
}

#[test]
fn loopy_register_packs_and_unpacks() {
    let mut register = LoopyRegister::new();
    register.set(0x7FFF);
    assert_eq!(register.coarse_x(), 31);
    assert_eq!(register.coarse_y(), 31);
    assert_eq!(register.nametable_x, 1);
    assert_eq!(register.nametable_y, 1);
    assert_eq!(register.fine_y(), 7);
    assert_eq!(register.address(), 0x7FFF);
    register.set(0xA5C3);
    assert_eq!(register.address(), 0x25C3);
    assert_eq!(register.vram_address(), 0x05C3);
    register.set_coarse_x(0x0D);
    register.set_coarse_y(0x16);
    register.nametable_x = 1;
    register.nametable_y = 0;
    assert_eq!(register.next_tile_attribute_address(), 0x400 + (0x16 / 4) * 8 + 0x0D / 4);
    register.set_fine_y(0x0F);
    assert_eq!(register.fine_y(), 7);
    register.set(0x7FFF);
    register.increment(false);
    assert_eq!(register.address(), 0x0000);
    register.increment(true);
    assert_eq!(register.address(), 0x0020);
}

#[test]
fn loopy_register_scroll_increments() {
    let mut register = LoopyRegister::new();
    register.set_coarse_x(30);
    register.increment_coarse_x();
    assert_eq!((register.coarse_x(), register.nametable_x), (31, 0));
    register.increment_coarse_x();
    assert_eq!((register.coarse_x(), register.nametable_x), (0, 1));
    register.flip_nametable_x();
    assert_eq!(register.nametable_x, 0);
    register.set_fine_y(6);
    register.set_coarse_y(29);
    register.increment_coarse_y();
    assert_eq!((register.fine_y(), register.coarse_y(), register.nametable_y), (7, 29, 0));
    register.increment_coarse_y();
    assert_eq!((register.fine_y(), register.coarse_y(), register.nametable_y), (0, 0, 1));
    register.set_fine_y(7);
    register.set_coarse_y(31);
    register.increment_coarse_y();
    assert_eq!((register.fine_y(), register.coarse_y(), register.nametable_y), (0, 0, 1));
    register.set_fine_y(7);
    register.set_coarse_y(5);
    register.increment_coarse_y();
    assert_eq!((register.fine_y(), register.coarse_y(), register.nametable_y), (0, 6, 1));
    register.flip_nametable_y();
    assert_eq!(register.nametable_y, 0);
}

#[test]
fn loopy_register_transfers() {
    let mut source = LoopyRegister::new();
    source.set(0x7ABC);
    let mut target = LoopyRegister::new();
    target.transfer_x_from(&source);
    assert_eq!(target.address(), 0x7ABC & 0x041F);
    let mut target = LoopyRegister::new();
    target.transfer_y_from(&source);
    assert_eq!(target.address(), 0x7ABC & 0x7BE0);
    let mut target = LoopyRegister::new();
    target.transfer_from(&source);
    assert_eq!(target, source);
}

#[test]
fn register_images() {
    assert_eq!(Controller::from_bits(0x20).get_sprite_size(), 16);
    assert_eq!(Controller::empty().get_sprite_size(), 8);
    assert!(Controller::from_bits(0x80).contains(Controller::GENERATE_NMI));
    assert!(!Mask::empty().is_render_enabled());
    assert!(Mask::from_bits(Mask::SHOW_BACKGROUND).is_background_enabled());
    assert!(Mask::from_bits(Mask::SHOW_BACKGROUND).is_render_enabled());
    assert!(Mask::from_bits(Mask::SHOW_SPRITES).is_foreground_enabled());
    assert!(!Mask::from_bits(Mask::SHOW_SPRITES).is_background_enabled());
    let mut status = Status::from_bits(0xE0);
    assert_eq!(status.read(0x1F), 0xFF);
    assert_eq!(status.bits(), 0x60);
    status.insert(Status::VERTICAL_BLANK);
    status.reset();
    assert_eq!(status.bits(), 0x00);
    status.set(Status::SPRITE_OVERFLOW, true);
    assert!(status.contains(Status::SPRITE_OVERFLOW));
    status.set(Status::SPRITE_OVERFLOW, false);
    status.remove(Status::SPRITE_ZERO_HIT);
    assert_eq!(status, Status::empty());
}

#[test]
fn flip_byte_reverses_bit_order() {
    assert_eq!(flip_byte_util(0b0000_0001), 0b1000_0000);
    assert_eq!(flip_byte_util(0b1100_1010), 0b0101_0011);
    assert_eq!(flip_byte_util(0xFF), 0xFF);
    for byte in 0..=255u8 {
        assert_eq!(flip_byte_util(flip_byte_util(byte)), byte);
    }
}

fn tick_times(ppu: &mut PPU, cart: &mut Cartridge, dots: usize) {
    for _ in 0..dots {
        ppu.tick(cart);
    }
}

#[test]
fn a_frame_without_rendering_lasts_89342_dots() {
    let mut cart = horizontal();
    let mut ppu = PPU::new();
    ppu.scanlines = -1;
    tick_times(&mut ppu, &mut cart, 89341);
    assert!(!ppu.completed_frame);
    assert_eq!((ppu.scanlines, ppu.cycles), (260, 340));
    ppu.tick(&mut cart);
    assert!(ppu.completed_frame);
    assert!(ppu.odd_frame);
    assert_eq!((ppu.scanlines, ppu.cycles), (-1, 0));
    assert_eq!(ppu.total_cycles, 89342);
}

#[test]
fn a_frame_with_rendering_skips_one_dot() {
    let mut cart = horizontal();
    let mut ppu = PPU::new();
    ppu.scanlines = -1;
    ppu.write_mask_register(Mask::SHOW_BACKGROUND);
    tick_times(&mut ppu, &mut cart, 341);
    assert_eq!((ppu.scanlines, ppu.cycles), (0, 0));
    ppu.tick(&mut cart);
    assert_eq!((ppu.scanlines, ppu.cycles), (0, 2));
    tick_times(&mut ppu, &mut cart, 89340 - 342);
    assert!(!ppu.completed_frame);
    ppu.tick(&mut cart);
    assert!(ppu.completed_frame);
    assert_eq!((ppu.scanlines, ppu.cycles), (-1, 0));
}

#[test]
fn vertical_blank_begins_at_dot_one_of_line_241() {
    let mut cart = horizontal();
    let mut ppu = PPU::new();
    ppu.write_control_register(Controller::GENERATE_NMI);
    ppu.scanlines = 241;
    ppu.cycles = 0;
    ppu.tick(&mut cart);
    assert!(!ppu.status_register.contains(Status::VERTICAL_BLANK));
    assert!(!ppu.nmi_interrupt);
    ppu.tick(&mut cart);
    assert!(ppu.status_register.contains(Status::VERTICAL_BLANK));
    assert!(ppu.nmi_interrupt);
    ppu.nmi_interrupt = false;
    tick_times(&mut ppu, &mut cart, 341 * 20 - 2);
    assert!(!ppu.nmi_interrupt);
    assert_eq!((ppu.scanlines, ppu.cycles), (-1, 0));
    assert!(ppu.status_register.contains(Status::VERTICAL_BLANK));
    tick_times(&mut ppu, &mut cart, 2);
    assert!(!ppu.status_register.contains(Status::VERTICAL_BLANK));
}

#[test]
fn no_interrupt_without_the_control_bit() {
    let mut cart = horizontal();
    let mut ppu = PPU::new();
    ppu.scanlines = 241;
    ppu.cycles = 1;
    ppu.tick(&mut cart);
    assert!(ppu.status_register.contains(Status::VERTICAL_BLANK));
    assert!(!ppu.nmi_interrupt);
}

#[test]
fn one_interrupt_per_frame() {
    let mut cart = horizontal();
    let mut ppu = PPU::new();
    ppu.scanlines = -1;
    ppu.write_control_register(Controller::GENERATE_NMI);
    let mut raised = 0;
    for _ in 0..(2 * 89342) {
        ppu.tick(&mut cart);
        if ppu.nmi_interrupt {
            raised += 1;
            ppu.nmi_interrupt = false;
        }
    }
    assert_eq!(raised, 2);
}

#[test]
fn the_pre_render_line_clears_the_status_flags() {
    let mut cart = horizontal();
    let mut ppu = PPU::new();
    ppu.scanlines = -1;
    ppu.cycles = 1;
    ppu.status_register = Status::from_bits(0xE0);
    ppu.scanline_sprites[3] = OamSprite::new(1, 2, 3, 4);
    ppu.tick(&mut cart);
    assert_eq!(ppu.status_register.bits(), 0x00);
    assert_eq!(ppu.scanline_sprites[3], OamSprite::new_empty());
}

#[test]
fn sprite_selection_takes_eight_and_flags_the_ninth() {
    let mut cart = horizontal();
    let mut ppu = PPU::new();
    for i in 0..64 {
        ppu.oam_sprites[i] = OamSprite::new(i as u8, 200, i as u8, 0);
    }
    for i in [0usize, 5, 6, 7, 10, 20, 30, 40] {
        ppu.oam_sprites[i].y = 50;
    }
    ppu.scanlines = 57;
    ppu.cycles = 257;
    ppu.evaluate_sprites();
    assert_eq!(ppu.sprites_count, 8);
    assert!(!ppu.status_register.contains(Status::SPRITE_OVERFLOW));
    assert!(ppu.has_sprite_zero_hit);
    assert_eq!(ppu.scanline_sprites[1].id, 5);
    assert_eq!(ppu.scanline_sprites[7].id, 40);
    ppu.oam_sprites[50].y = 57;
    ppu.evaluate_sprites();
    assert_eq!(ppu.sprites_count, 8);
    assert!(ppu.status_register.contains(Status::SPRITE_OVERFLOW));
    ppu.scanlines = 58;
    ppu.evaluate_sprites();
    assert_eq!(ppu.sprites_count, 1);
    assert_eq!(ppu.scanline_sprites[0].id, 50);
    assert!(!ppu.status_register.contains(Status::SPRITE_OVERFLOW));
    ppu.cycles = 256;
    ppu.scanlines = 57;
    ppu.evaluate_sprites();
    assert_eq!(ppu.sprites_count, 1);
    let _ = &mut cart;
}

#[test]
fn sprite_height_follows_the_control_register() {
    let mut ppu = PPU::new();
    ppu.oam_sprites[1] = OamSprite::new(0, 100, 1, 0);
    for i in 0..64 {
        if i != 1 {
            ppu.oam_sprites[i].y = 240;
        }
    }
    ppu.cycles = 257;
    ppu.scanlines = 108;
    ppu.evaluate_sprites();
    assert_eq!(ppu.sprites_count, 0);
    ppu.write_control_register(Controller::SPRITE_SIZE);
    ppu.evaluate_sprites();
    assert_eq!(ppu.sprites_count, 1);
    ppu.scanlines = 116;
    ppu.evaluate_sprites();
    assert_eq!(ppu.sprites_count, 0);
}

#[test]
fn sprite_pattern_address() {
    let mut ppu = PPU::new();
    ppu.scanlines = 13;
    let sprite = OamSprite::new(0, 10, 0x25, 0);
    assert_eq!(ppu.get_sprite_pattern_address_low(&sprite), 0x0253);
    ppu.write_control_register(Controller::SPRITE_PATTERN_ADDRESS);
    assert_eq!(ppu.get_sprite_pattern_address_low(&sprite), 0x1253);
    let flipped = OamSprite::new(0, 10, 0x25, 0x80);
    assert_eq!(ppu.get_sprite_pattern_address_low(&flipped), 0x1254);
    ppu.write_control_register(Controller::SPRITE_SIZE);
    let tall = OamSprite::new(0, 10, 0x25, 0);
    assert_eq!(ppu.get_sprite_pattern_address_low(&tall), 0x1253);
    ppu.scanlines = 20;
    assert_eq!(ppu.get_sprite_pattern_address_low(&tall), 0x1262);
}

#[test]
fn pixel_choice_follows_the_table() {
    let mut ppu = PPU::new();
    assert_eq!(ppu.evaluate_pixel(0, 1, 0, 5, true), (0, 0));
    assert_eq!(ppu.evaluate_pixel(0, 1, 2, 5, false), (2, 5));
    assert_eq!(ppu.evaluate_pixel(3, 1, 0, 5, true), (3, 1));
    assert_eq!(ppu.evaluate_pixel(3, 1, 2, 5, true), (2, 5));
    assert_eq!(ppu.evaluate_pixel(3, 1, 2, 5, false), (3, 1));
    assert!(!ppu.status_register.contains(Status::SPRITE_ZERO_HIT));
}

#[test]
fn sprite_zero_hit_needs_both_planes_and_a_visible_dot() {
    let mut ppu = PPU::new();
    ppu.has_sprite_zero_hit = true;
    ppu.is_sprite_zero_hit_rendering = true;
    ppu.write_mask_register(Mask::SHOW_BACKGROUND | Mask::SHOW_SPRITES);
    ppu.cycles = 8;
    ppu.evaluate_sprite_zero_hit();
    assert!(!ppu.status_register.contains(Status::SPRITE_ZERO_HIT));
    ppu.cycles = 9;
    ppu.evaluate_pixel(1, 0, 1, 4, true);
    assert!(ppu.status_register.contains(Status::SPRITE_ZERO_HIT));
    ppu.status_register = Status::empty();
    ppu.cycles = 257;
    ppu.evaluate_sprite_zero_hit();
    assert!(!ppu.status_register.contains(Status::SPRITE_ZERO_HIT));
    ppu.write_mask_register(0x1E);
    ppu.cycles = 1;
    ppu.evaluate_sprite_zero_hit();
    assert!(ppu.status_register.contains(Status::SPRITE_ZERO_HIT));
    ppu.status_register = Status::empty();
    ppu.write_mask_register(Mask::SHOW_BACKGROUND);
    ppu.cycles = 100;
    ppu.evaluate_sprite_zero_hit();
    assert!(!ppu.status_register.contains(Status::SPRITE_ZERO_HIT));
}

#[test]
fn draw_pixel_looks_the_colour_up_in_palette_memory() {
    let mut cart = horizontal();
    let mut ppu = PPU::new();
    ppu.write_u8(&mut cart, 0x3F00 + 4 * 5 + 2, 0x2C);
    ppu.draw_pixel(&cart, 17, 3, 2, 5);
    assert_eq!(ppu.screen[3 * 256 + 17], 0x2C);
    ppu.write_u8(&mut cart, 0x3F00, 0x0F);
    ppu.draw_pixel(&cart, 0, 0, 0, 0);
    assert_eq!(ppu.screen[0], 0x0F);
}

#[test]
fn a_blank_frame_shows_the_universal_background() {
    let mut cart = horizontal();
    let mut ppu = PPU::new();
    ppu.scanlines = -1;
    ppu.write_u8(&mut cart, 0x3F00, 0x21);
    tick_times(&mut ppu, &mut cart, 89342);
    assert!(ppu.screen.iter().all(|index| *index == 0x21));
}

#[test]
fn background_tiles_reach_the_screen() {
    let mut cart = horizontal();
    let mut ppu = PPU::new();
    ppu.scanlines = -1;
    cart.chr_memory[16] = 0xFF;
    for i in 17..32 {
        cart.chr_memory[i] = 0x00;
    }
    for address in 0x2000..0x23C0u16 {
        ppu.write_u8(&mut cart, address, 1);
    }
    ppu.write_u8(&mut cart, 0x3F00, 0x0F);
    ppu.write_u8(&mut cart, 0x3F01, 0x30);
    ppu.write_mask_register(Mask::SHOW_BACKGROUND | Mask::LEFTMOST_SHOW_BACKGROUND);
    tick_times(&mut ppu, &mut cart, 89341);
    assert!(ppu.completed_frame);
    for x in 8..256 {
        assert_eq!(ppu.screen[8 * 256 + x], 0x30);
        assert_eq!(ppu.screen[9 * 256 + x], 0x0F);
    }
}

#[test]
fn background_shifters_shift_and_reload() {
    let mut ppu = PPU::new();
    ppu.write_mask_register(Mask::SHOW_BACKGROUND);
    ppu.next_background_tile_lsb = 0xA5;
    ppu.next_background_tile_msb = 0x3C;
    ppu.next_background_tile_attribute = 0b10;
    ppu.load_background_shifters();
    assert_eq!(ppu.get_background_pixel_info(), (0, 0));
    for _ in 0..8 {
        ppu.update_background_shifters();
    }
    ppu.cycles = 9;
    ppu.write_mask_register(Mask::SHOW_BACKGROUND | Mask::LEFTMOST_SHOW_BACKGROUND);
    assert_eq!(ppu.get_background_pixel_info(), (0b01, 0b10));
    ppu.update_background_shifters();
    assert_eq!(ppu.get_background_pixel_info(), (0b00, 0b10));
    ppu.update_background_shifters();
    assert_eq!(ppu.get_background_pixel_info(), (0b11, 0b10));
    ppu.write_mask_register(Mask::LEFTMOST_SHOW_BACKGROUND);
    assert_eq!(ppu.get_background_pixel_info(), (0, 0));
    ppu.update_background_shifters();
    ppu.write_mask_register(Mask::SHOW_BACKGROUND | Mask::LEFTMOST_SHOW_BACKGROUND);
    assert_eq!(ppu.get_background_pixel_info(), (0b11, 0b10));
}

#[test]
fn sprite_shifters_wait_for_their_column() {
    let cart = horizontal();
    let mut ppu = PPU::new();
    ppu.write_mask_register(Mask::SHOW_SPRITES | Mask::LEFTMOST_SHOW_SPRITES);
    ppu.sprites_count = 2;
    ppu.scanline_sprites[0] = OamSprite::new(2, 0, 0, 0x01);
    ppu.scanline_sprites[1] = OamSprite::new(0, 0, 0, 0x23);
    ppu.sprite_shifter_pattern_low = [0x80, 0x00, 0, 0, 0, 0, 0, 0];
    ppu.sprite_shifter_pattern_high = [0x00, 0x80, 0, 0, 0, 0, 0, 0];
    ppu.cycles = 1;
    assert_eq!(ppu.get_sprite_pixel_info(), (2, 7, false));
    assert!(!ppu.is_sprite_zero_hit_rendering);
    ppu.update_foreground_shifters();
    assert_eq!(ppu.scanline_sprites[0].x, 1);
    assert_eq!(ppu.sprite_shifter_pattern_high[1], 0x00);
    assert_eq!(ppu.get_sprite_pixel_info(), (0, 0, false));
    ppu.update_sprite_shifters();
    assert_eq!(ppu.scanline_sprites[0].x, 0);
    assert_eq!(ppu.get_sprite_pixel_info(), (1, 5, true));
    assert!(ppu.is_sprite_zero_hit_rendering);
    ppu.update_foreground_shifters();
    assert_eq!(ppu.sprite_shifter_pattern_low[0], 0x00);
    ppu.write_mask_register(0);
    assert_eq!(ppu.get_sprite_pixel_info(), (0, 0, false));
    let _ = &cart;
}

#[test]
fn sprite_shifters_are_loaded_at_dot_340() {
    let mut cart = horizontal();
    let mut ppu = PPU::new();
    cart.chr_memory[0x20 * 16 + 3] = 0b1100_0001;
    cart.chr_memory[0x20 * 16 + 3 + 8] = 0b0000_1111;
    ppu.scanlines = 13;
    ppu.sprites_count = 2;
    ppu.scanline_sprites[0] = OamSprite::new(0, 10, 0x20, 0x00);
    ppu.scanline_sprites[1] = OamSprite::new(0, 10, 0x20, 0x40);
    ppu.cycles = 339;
    ppu.prepare_sprite_shifters(&cart);
    assert_eq!(ppu.sprite_shifter_pattern_low[0], 0);
    ppu.cycles = 340;
    ppu.prepare_sprite_shifters(&cart);
    assert_eq!(ppu.sprite_shifter_pattern_low[0], 0b1100_0001);
    assert_eq!(ppu.sprite_shifter_pattern_high[0], 0b0000_1111);
    assert_eq!(ppu.sprite_shifter_pattern_low[1], 0b1000_0011);
    assert_eq!(ppu.sprite_shifter_pattern_high[1], 0b1111_0000);
}

#[test]
fn scroll_moves_only_while_rendering() {
    let mut ppu = PPU::new();
    ppu.temp_address_register.set(0x7FFF);
    ppu.increment_scroll_x();
    ppu.increment_scroll_y();
    ppu.transfer_x_address();
    ppu.transfer_y_address();
    assert_eq!(ppu.address_register.address(), 0);
    ppu.write_mask_register(Mask::SHOW_SPRITES);
    ppu.increment_scroll_x();
    assert_eq!(ppu.address_register.address(), 0x0001);
    ppu.increment_scroll_y();
    assert_eq!(ppu.address_register.address(), 0x1001);
    ppu.transfer_x_address();
    assert_eq!(ppu.address_register.address(), 0x141F);
    ppu.transfer_y_address();
    assert_eq!(ppu.address_register.address(), 0x7FFF);
}

#[test]
fn frame_helpers() {
    let mut ppu = PPU::new();
    assert!(!ppu.is_end_of_frame());
    ppu.scanlines = 241;
    ppu.cycles = 1;
    assert!(ppu.is_end_of_frame());
    ppu.check_nmi_interrupt();
    assert!(ppu.status_register.contains(Status::VERTICAL_BLANK));
    ppu.status_register.insert(Status::SPRITE_OVERFLOW);
    ppu.scanline_sprites[0].x = 9;
    ppu.new_frame_reset();
    assert_eq!(ppu.status_register.bits(), 0);
    assert_eq!(ppu.scanline_sprites[0].x, 0);
    ppu.scanline_sprites[7].id = 9;
    ppu.clear_sprites();
    assert_eq!(ppu.scanline_sprites[7].id, 0);
    ppu.cycles = 341;
    ppu.scanlines = 260;
    ppu.increment_scanline();
    assert_eq!((ppu.scanlines, ppu.cycles), (-1, 0));
    assert!(ppu.completed_frame);
    ppu.cycles = 341;
    ppu.increment_scanline();
    assert_eq!((ppu.scanlines, ppu.cycles), (0, 0));
    ppu.cycles = 340;
    ppu.increment_scanline();
    assert_eq!((ppu.scanlines, ppu.cycles), (0, 340));
}

#[test]
fn background_fetch_cycle() {
    let mut cart = horizontal();
    let mut ppu = PPU::new();
    ppu.write_u8(&mut cart, 0x2000, 0x07);
    ppu.write_u8(&mut cart, 0x23C0, 0b1110_0100);
    ppu.write_mask_register(Mask::SHOW_BACKGROUND);
    ppu.cycles = 1;
    ppu.load_background_info(&cart);
    assert_eq!(ppu.next_background_tile_id, 0x07);
    ppu.cycles = 3;
    ppu.load_background_info(&cart);
    assert_eq!(ppu.next_background_tile_attribute, 0b1110_0100);
    ppu.address_register.set_coarse_x(2);
    ppu.load_background_info(&cart);
    assert_eq!(ppu.next_background_tile_attribute, 0b0011_1001);
    ppu.address_register.set_coarse_y(2);
    ppu.load_background_info(&cart);
    assert_eq!(ppu.next_background_tile_attribute, 0b0000_0011);
    ppu.address_register.set_coarse_x(0);
    ppu.address_register.set_coarse_y(0);
    ppu.address_register.set_fine_y(2);
    ppu.cycles = 5;
    ppu.load_background_info(&cart);
    assert_eq!(ppu.next_background_tile_lsb, ((7 * 16 + 2) % 251) as u8);
    ppu.cycles = 7;
    ppu.load_background_info(&cart);
    assert_eq!(ppu.next_background_tile_msb, ((7 * 16 + 2 + 8) % 251) as u8);
    ppu.cycles = 8;
    ppu.load_background_info(&cart);
    assert_eq!(ppu.address_register.coarse_x(), 1);
}

#[test]
fn palette_table_has_sixty_four_colours() {
    assert_eq!(PALETTE.len(), 64);
    assert_eq!(PALETTE[0], [84, 84, 84]);
    assert_eq!(PALETTE[0x21], [76, 154, 236]);
    assert_eq!(PALETTE[0x3D], [160, 162, 160]);
    assert_eq!(PALETTE[0x3F], [0, 0, 0]);
}

#[test]
fn ticking_is_repeatable() {
    let mut first_cart = vertical();
    let mut second_cart = vertical();
    let mut first = PPU::new();
    let mut second = PPU::new();
    for ppu in [&mut first, &mut second] {
        ppu.write_mask_register(0x1E);
        ppu.write_control_register(0x90);
        ppu.oam_sprites[0] = OamSprite::new(20, 30, 2, 0);
        ppu.oam_sprites[9] = OamSprite::new(40, 31, 3, 0x40);
    }
    for address in 0x2000..0x2400u16 {
        first.write_u8(&mut first_cart, address, (address % 7) as u8);
        second.write_u8(&mut second_cart, address, (address % 7) as u8);
    }
    for _ in 0..(341 * 40) {
        first.tick(&mut first_cart);
        second.tick(&mut second_cart);
        assert_eq!((first.scanlines, first.cycles), (second.scanlines, second.cycles));
        assert_eq!(first.status_register, second.status_register);
        assert_eq!(first.address_register, second.address_register);
        assert_eq!(first.sprites_count, second.sprites_count);
        assert_eq!(first.nmi_interrupt, second.nmi_interrupt);
    }
    assert_eq!(first.screen[..], second.screen[..]);
    assert_eq!(first.sprite_shifter_pattern_low, second.sprite_shifter_pattern_low);
    assert_eq!(first.scanline_sprites, second.scanline_sprites);
}

#[test]
fn pattern_tables_are_drawn_from_character_memory() {
    let mut cart = horizontal();
    let mut ppu = PPU::new();
    for i in 0..0x2000 {
        cart.chr_memory[i] = 0;
    }
    cart.chr_memory[0x0000] = 0b1000_0001;
    cart.chr_memory[0x0008] = 0b1000_0000;
    cart.chr_memory[0x1000 + 3 * 256 + 2 * 16 + 5] = 0b0000_0100;
    ppu.write_u8(&mut cart, 0x3F00, 0x0F);
    ppu.write_u8(&mut cart, 0x3F01, 0x11);
    ppu.write_u8(&mut cart, 0x3F02, 0x22);
    ppu.write_u8(&mut cart, 0x3F03, 0x33);
    ppu.draw_pattern_tables(&cart);
    assert_eq!(ppu.debug_pattern_tables[0], 0x33);
    assert_eq!(ppu.debug_pattern_tables[7], 0x11);
    assert_eq!(ppu.debug_pattern_tables[1], 0x0F);
    assert_eq!(ppu.debug_pattern_tables[128], 0x0F);
    let x = 2 * 8 + 5;
    let y = 3 * 8 + 5;
    assert_eq!(ppu.debug_pattern_tables[16384 + y * 128 + x], 0x11);
    assert_eq!(ppu.pattern_table_pixel(&cart, 1, x, y), 0x11);
    assert_eq!(ppu.pattern_table_pixel(&cart, 0, 0, 0), 0x33);
    let drawn = ppu.debug_pattern_tables.iter().filter(|index| **index != 0x0F).count();
    assert_eq!(drawn, 3);
}

#[test]
fn the_screen_holds_six_bit_palette_indices() {
    let mut cart = horizontal();
    let mut ppu = PPU::new();
    ppu.write_u8(&mut cart, 0x3F00, 0xFF);
    ppu.write_u8(&mut cart, 0x3F05, 0x7A);
    assert_eq!(ppu.read_u8(&cart, 0x3F00), 0xFF);
    ppu.draw_pixel(&cart, 0, 0, 0, 0);
    ppu.draw_pixel(&cart, 255, 239, 1, 1);
    assert_eq!(ppu.screen[0], 0x3F);
    assert_eq!(ppu.screen[239 * 256 + 255], 0x3A);
    ppu.scanlines = -1;
    ppu.cycles = 0;
    tick_times(&mut ppu, &mut cart, 89342);
    assert!(ppu.screen.iter().all(|index| *index == 0x3F));
}
