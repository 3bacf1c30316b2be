//! The picture unit: its state, its own address space, and the register
//! ports that the processor reaches it through.

use vstd::prelude::*;
use vstd::array::{spec_array_fill_for_copy_type, spec_array_update};
use crate::cartridge::{Cartridge, CartridgeView, Mirroring};
use crate::oam::OamSprite;
use crate::registers::{Controller, LoopyRegister, Mask, Status};

verus! {

pub const SCANLINES_COUNT: i32 = 262;

pub const SCANLINES_PER_FRAME: i32 = 241;

pub const CYCLES_TO_DRAW_SCANLINE: usize = 341;

pub const VISIBLE_SCANLINE_CYCLES: usize = 256;

pub const PPU_MEMORY_SIZE: usize = 0x800;

pub const OAM_DATA_SIZE: usize = 0x100;

pub const PALETTE_TABLE_SIZE: usize = 32;

pub const PALETTE_MEMORY_START: u16 = 0x3F00;

pub const ATTRIBUTE_MEMORY_OFFSET: u16 = 0x03C0;

pub const CHR_ROM_PAGE_START: u16 = 0x0000;

pub const CHR_ROM_PAGE_END: u16 = 0x1FFF;

pub const VRAM_PAGE_START: u16 = 0x2000;

pub const VRAM_PAGE_END: u16 = 0x3EFF;

pub const PALETTE_PAGE_START: u16 = 0x3F00;

pub const PALETTE_PAGE_END: u16 = 0x3FFF;

pub const PPU_ADDRESS_SPACE: u16 = 0x4000;

pub const MAX_SPRITES_COUNT: usize = 8;

pub const OAM_SPRITES_COUNT: usize = 64;

pub const SCREEN_WIDTH: usize = 256;

pub const SCREEN_HEIGHT: usize = 240;

pub const SCREEN_SIZE: usize = 61440;

pub const PATTERN_TABLE_WIDTH: usize = 128;

pub const PATTERN_TABLE_SIZE: usize = 16384;

pub const PATTERN_TABLES_SIZE: usize = 32768;

/// The fixed colours, as red, green and blue, of the 64 palette indices.
pub const PALETTE: [[u8; 3]; 64] = [
    [84, 84, 84],
    [0, 30, 116],
    [8, 16, 144],
    [48, 0, 136],
    [68, 0, 100],
    [92, 0, 48],
    [84, 4, 0],
    [60, 24, 0],
    [32, 42, 0],
    [8, 58, 0],
    [0, 64, 0],
    [0, 60, 0],
    [0, 50, 60],
    [0, 0, 0],
    [0, 0, 0],
    [0, 0, 0],
    [152, 150, 152],
    [8, 76, 196],
    [48, 50, 236],
    [92, 30, 228],
    [136, 20, 176],
    [160, 20, 100],
    [152, 34, 32],
    [120, 60, 0],
    [84, 90, 0],
    [40, 114, 0],
    [8, 124, 0],
    [0, 118, 40],
    [0, 102, 120],
    [0, 0, 0],
    [0, 0, 0],
    [0, 0, 0],
    [236, 238, 236],
    [76, 154, 236],
    [120, 124, 236],
    [176, 98, 236],
    [228, 84, 236],
    [236, 88, 180],
    [236, 106, 100],
    [212, 136, 32],
    [160, 170, 0],
    [116, 196, 0],
    [76, 208, 32],
    [56, 204, 108],
    [56, 180, 204],
    [60, 60, 60],
    [0, 0, 0],
    [0, 0, 0],
    [236, 238, 236],
    [168, 204, 236],
    [188, 188, 236],
    [212, 178, 236],
    [236, 174, 236],
    [236, 174, 212],
    [236, 180, 176],
    [228, 196, 144],
    [204, 210, 120],
    [180, 222, 120],
    [168, 226, 144],
    [152, 226, 180],
    [160, 214, 228],
    [160, 162, 160],
    [0, 0, 0],
    [0, 0, 0],
];

/// The picture unit's whole state.
///
/// `scanlines` runs from -1 (the pre-render line) to 260 and `cycles`, the
/// dot within the line, from 0 to 340. `screen` holds one palette index for
/// each of the 256 × 240 visible dots, line after line.
/// `debug_pattern_tables` holds a picture of the two pattern tables, 128 ×
/// 128 dots each, drawn on request.
pub struct PPU {
    pub total_cycles: usize,
    pub cycles: usize,
    pub nmi_interrupt: bool,
    pub latch: bool,
    pub control_register: Controller,
    pub mask_register: Mask,
    pub status_register: Status,
    pub oam_address_register: u8,
    pub address_register: LoopyRegister,
    pub temp_address_register: LoopyRegister,
    pub fine_x: u8,
    pub next_background_tile_id: u8,
    pub next_background_tile_attribute: u8,
    pub next_background_tile_lsb: u8,
    pub next_background_tile_msb: u8,
    pub background_shifter_pattern_low: u16,
    pub background_shifter_pattern_high: u16,
    pub background_shifter_attribute_low: u16,
    pub background_shifter_attribute_high: u16,
    pub sprites_count: u8,
    pub sprite_shifter_pattern_low: [u8; 8],
    pub sprite_shifter_pattern_high: [u8; 8],
    pub oam_sprites: [OamSprite; 64],
    pub scanline_sprites: [OamSprite; 8],
    pub has_sprite_zero_hit: bool,
    pub is_sprite_zero_hit_rendering: bool,
    pub screen: [u8; 61440],
    pub data_buffer: u8,
    pub memory: [u8; 2048],
    pub palette: [u8; 32],
    pub debug_pattern_tables: [u8; 32768],
    pub scanlines: i32,
    pub completed_frame: bool,
    pub odd_frame: bool,
}

/// The sprite of four zero bytes.
pub open spec fn empty_sprite() -> OamSprite {
    OamSprite { y: 0, id: 0, attribute: 0, x: 0 }
}

/// Where in the 2 KiB of name-table memory a name-table address lands.
///
/// The address is taken modulo 4 KiB, which leaves four logical tables of
/// 1 KiB. With vertical mirroring the tables are A, B, A, B; otherwise they
/// are A, A, B, B, where A is the first physical KiB and B the second.
pub open spec fn spec_nametable_offset(mirroring: Mirroring, address: u16) -> u16 {
    let mirrored = address % 0x1000;
    if mirroring is Vertical {
        mirrored % 0x800
    } else {
        ((mirrored / 0x800) * 0x400 + mirrored % 0x400) as u16
    }
}

/// Where in the 32 bytes of palette memory a palette address lands: the
/// address modulo 32, with entries $10, $14, $18 and $1C standing for $00,
/// $04, $08 and $0C.
pub open spec fn spec_palette_offset(address: u16) -> u16 {
    let offset = address % 32;
    if offset == 0x10 || offset == 0x14 || offset == 0x18 || offset == 0x1C {
        (offset - 0x10) as u16
    } else {
        offset
    }
}

/// See [`spec_nametable_offset`].
pub fn nametable_offset(mirroring: Mirroring, address: u16) -> (offset: u16)
    ensures
        offset == spec_nametable_offset(mirroring, address),
        offset < 0x800,
{
    let mirrored = address % 0x1000;
    match mirroring {
        Mirroring::Vertical => mirrored % 0x800,
        _ => (mirrored / 0x800) * 0x400 + mirrored % 0x400,
    }
}

/// See [`spec_palette_offset`].
pub fn palette_offset(address: u16) -> (offset: u16)
    ensures
        offset == spec_palette_offset(address),
        offset < 32,
{
    let offset = address % 32;
    if offset == 0x10 || offset == 0x14 || offset == 0x18 || offset == 0x1C {
        offset - 0x10
    } else {
        offset
    }
}

impl PPU {
    /// The state at power-on: everything zero, on line 0 at dot 0.
    pub open spec fn spec_new() -> PPU {
        PPU {
            total_cycles: 0,
            cycles: 0,
            nmi_interrupt: false,
            latch: false,
            control_register: Controller { bits: 0 },
            mask_register: Mask { bits: 0 },
            status_register: Status { bits: 0 },
            oam_address_register: 0,
            address_register: LoopyRegister {
                coarse_x: 0,
                coarse_y: 0,
                nametable_x: 0,
                nametable_y: 0,
                fine_y: 0,
            },
            temp_address_register: LoopyRegister {
                coarse_x: 0,
                coarse_y: 0,
                nametable_x: 0,
                nametable_y: 0,
                fine_y: 0,
            },
            fine_x: 0,
            next_background_tile_id: 0,
            next_background_tile_attribute: 0,
            next_background_tile_lsb: 0,
            next_background_tile_msb: 0,
            background_shifter_pattern_low: 0,
            background_shifter_pattern_high: 0,
            background_shifter_attribute_low: 0,
            background_shifter_attribute_high: 0,
            sprites_count: 0,
            sprite_shifter_pattern_low: spec_array_fill_for_copy_type::<u8, 8>(0u8),
            sprite_shifter_pattern_high: spec_array_fill_for_copy_type::<u8, 8>(0u8),
            oam_sprites: spec_array_fill_for_copy_type::<OamSprite, 64>(empty_sprite()),
            scanline_sprites: spec_array_fill_for_copy_type::<OamSprite, 8>(empty_sprite()),
            has_sprite_zero_hit: false,
            is_sprite_zero_hit_rendering: false,
            screen: spec_array_fill_for_copy_type::<u8, 61440>(0u8),
            data_buffer: 0,
            memory: spec_array_fill_for_copy_type::<u8, 2048>(0u8),
            palette: spec_array_fill_for_copy_type::<u8, 32>(0u8),
            debug_pattern_tables: spec_array_fill_for_copy_type::<u8, 32768>(0u8),
            scanlines: 0,
            completed_frame: false,
            odd_frame: false,
        }
    }

    /// The position is one of the frame's 262 × 341 dots, no more than
    /// eight sprites are selected for the line, and the screen holds
    /// palette indices.
    pub open spec fn wf(self) -> bool {
        &&& self.cycles <= 340
        &&& -1 <= self.scanlines <= 260
        &&& self.sprites_count <= 8
        &&& self.screen_in_range()
    }

    /// Whether every dot of the screen holds one of the 64 palette
    /// indices.
    pub open spec fn screen_in_range(self) -> bool {
        forall|i: int| 0 <= i < SCREEN_SIZE ==> #[trigger] self.screen[i] < 64
    }

    /// Tests whether the state is one that the picture unit can be in.
    pub fn is_well_formed(&self) -> (ok: bool)
        ensures
            ok == self.wf(),
    {
        if !(self.cycles <= 340 && -1 <= self.scanlines && self.scanlines <= 260
            && self.sprites_count <= 8) {
            return false;
        }
        let mut i: usize = 0;
        while i < SCREEN_SIZE
            invariant
                i <= SCREEN_SIZE,
                forall|j: int| 0 <= j < i ==> #[trigger] self.screen[j] < 64,
            decreases SCREEN_SIZE - i,
        {
            if self.screen[i] >= 64 {
                return false;
            }
            i += 1;
        }
        true
    }

    /// The picture unit at power-on.
    pub fn new() -> (r: PPU)
        ensures
            r == PPU::spec_new(),
            r.wf(),
    {
        PPU {
            total_cycles: 0,
            cycles: 0,
            nmi_interrupt: false,
            latch: false,
            control_register: Controller::empty(),
            mask_register: Mask::empty(),
            status_register: Status::empty(),
            oam_address_register: 0,
            address_register: LoopyRegister::new(),
            temp_address_register: LoopyRegister::new(),
            fine_x: 0,
            next_background_tile_id: 0,
            next_background_tile_attribute: 0,
            next_background_tile_lsb: 0,
            next_background_tile_msb: 0,
            background_shifter_pattern_low: 0,
            background_shifter_pattern_high: 0,
            background_shifter_attribute_low: 0,
            background_shifter_attribute_high: 0,
            sprites_count: 0,
            sprite_shifter_pattern_low: [0u8; 8],
            sprite_shifter_pattern_high: [0u8; 8],
            oam_sprites: [OamSprite::new_empty(); 64],
            scanline_sprites: [OamSprite::new_empty(); 8],
            has_sprite_zero_hit: false,
            is_sprite_zero_hit_rendering: false,
            screen: [0u8; 61440],
            data_buffer: 0,
            memory: [0u8; 2048],
            palette: [0u8; 32],
            debug_pattern_tables: [0u8; 32768],
            scanlines: 0,
            completed_frame: false,
            odd_frame: false,
        }
    }

    // ---- the picture unit's own address space ----

    /// The name-table byte at `address`.
    pub open spec fn spec_read_from_internal_memory(self, cart: CartridgeView, address: u16) -> u8 {
        self.memory[spec_nametable_offset(cart.mirroring, address) as int]
    }

    /// The state with the name-table byte at `address` set to `value`.
    pub open spec fn spec_write_to_internal_memory(
        self,
        cart: CartridgeView,
        address: u16,
        value: u8,
    ) -> PPU {
        PPU {
            memory: spec_array_update(
                self.memory,
                spec_nametable_offset(cart.mirroring, address) as int,
                value,
            ),
            ..self
        }
    }

    /// The byte at `address` of the 16 KiB address space: character memory
    /// through the cartridge below $2000, name tables up to $3EFF, palette
    /// from $3F00. Higher addresses repeat the space.
    pub open spec fn spec_read_u8(self, cart: CartridgeView, address: u16) -> u8 {
        let address = address % PPU_ADDRESS_SPACE;
        if address <= CHR_ROM_PAGE_END {
            cart.ppu_read_u8(address as usize)
        } else if address <= VRAM_PAGE_END {
            self.spec_read_from_internal_memory(cart, address)
        } else {
            self.palette[spec_palette_offset(address) as int]
        }
    }

    /// The state and the cartridge after `value` is stored at `address` of
    /// the 16 KiB address space.
    pub open spec fn spec_write_u8(self, cart: CartridgeView, address: u16, value: u8) -> (
        PPU,
        CartridgeView,
    ) {
        let address = address % PPU_ADDRESS_SPACE;
        if address <= CHR_ROM_PAGE_END {
            (self, cart.ppu_write_u8(address as usize, value))
        } else if address <= VRAM_PAGE_END {
            (self.spec_write_to_internal_memory(cart, address, value), cart)
        } else {
            (
                PPU {
                    palette: spec_array_update(
                        self.palette,
                        spec_palette_offset(address) as int,
                        value,
                    ),
                    ..self
                },
                cart,
            )
        }
    }

    /// The name-table byte at `address`.
    pub fn read_from_internal_memory(&self, cart: &Cartridge, address: u16) -> (value: u8)
        requires
            cart@.wf(),
        ensures
            value == self.spec_read_from_internal_memory(cart@, address),
    {
        self.memory[nametable_offset(cart.mirroring, address) as usize]
    }

    /// The state with the name-table byte at `address` set to `value`.
    pub fn write_to_internal_memory(&mut self, cart: &Cartridge, address: u16, value: u8)
        requires
            cart@.wf(),
        ensures
            *final(self) == old(self).spec_write_to_internal_memory(cart@, address, value),
    {
        self.memory[nametable_offset(cart.mirroring, address) as usize] = value;
    }

    /// The byte at `address` of the 16 KiB address space: character memory
    /// through the cartridge below $2000, name tables up to $3EFF, palette
    /// from $3F00. Higher addresses repeat the space.
    pub fn read_u8(&self, cart: &Cartridge, address: u16) -> (value: u8)
        requires
            cart@.wf(),
        ensures
            value == self.spec_read_u8(cart@, address),
    {
        let address = address % PPU_ADDRESS_SPACE;
        if address <= CHR_ROM_PAGE_END {
            cart.ppu_read_u8(address as usize)
        } else if address <= VRAM_PAGE_END {
            self.read_from_internal_memory(cart, address)
        } else {
            self.palette[palette_offset(address) as usize]
        }
    }

    /// The state and the cartridge after `value` is stored at `address` of
    /// the 16 KiB address space.
    pub fn write_u8(&mut self, cart: &mut Cartridge, address: u16, value: u8)
        requires
            old(cart)@.wf(),
        ensures
            (*final(self), final(cart)@) == old(self).spec_write_u8(old(cart)@, address, value),
            final(cart)@.wf(),
    {
        let address = address % PPU_ADDRESS_SPACE;
        if address <= CHR_ROM_PAGE_END {
            cart.ppu_write_u8(address as usize, value);
        } else if address <= VRAM_PAGE_END {
            self.write_to_internal_memory(cart, address, value);
        } else {
            self.palette[palette_offset(address) as usize] = value;
        }
    }

    // ---- register ports ----

    /// The state after a read of the status port: vertical blank cleared
    /// and the write toggle reset.
    pub open spec fn spec_read_status_register(self) -> PPU {
        PPU { status_register: self.status_register.spec_read(), latch: false, ..self }
    }

    /// The byte of object attribute memory at `address`: sprite
    /// `address / 4`, byte `address % 4`.
    pub open spec fn spec_oam_byte(self, address: u8) -> u8 {
        self.oam_sprites[(address / 4) as int].get_attribute_by_address(address)
    }

    /// The byte of object attribute memory that the OAM address selects.
    pub open spec fn spec_read_oam_data_register(self) -> u8 {
        self.spec_oam_byte(self.oam_address_register)
    }

    /// The state with the current address moved on by the step that the
    /// control register asks for.
    pub open spec fn spec_increment_address_register(self) -> PPU {
        PPU {
            address_register: self.address_register.spec_increment(
                self.control_register.contains(Controller::VRAM_ADDRESS_INCREMENT),
            ),
            ..self
        }
    }

    /// The byte that a read of the data port reports: the buffered byte, or
    /// for a palette address the palette entry itself.
    pub open spec fn spec_read_data_value(self, cart: CartridgeView) -> u8 {
        let address = self.address_register.spec_address() % PPU_ADDRESS_SPACE;
        if address >= PALETTE_PAGE_START {
            self.spec_read_u8(cart, address)
        } else {
            self.data_buffer
        }
    }

    /// The state after a read of the data port: the buffer refilled from
    /// the current address (for a palette address, from the name-table byte
    /// that lies under it) and the address moved on.
    pub open spec fn spec_read_data_register(self, cart: CartridgeView) -> PPU {
        let address = self.address_register.spec_address() % PPU_ADDRESS_SPACE;
        PPU {
            data_buffer: if address >= PALETTE_PAGE_START {
                self.spec_read_from_internal_memory(cart, address)
            } else {
                self.spec_read_u8(cart, address)
            },
            ..self
        }.spec_increment_address_register()
    }

    /// The state after a write to the control port: the image replaced and
    /// its two name-table bits copied into the temporary address.
    pub open spec fn spec_write_control_register(self, value: u8) -> PPU {
        let control = Controller { bits: value };
        PPU {
            control_register: control,
            temp_address_register: LoopyRegister {
                nametable_x: if control.contains(Controller::NAMETABLE_X) {
                    1
                } else {
                    0
                },
                nametable_y: if control.contains(Controller::NAMETABLE_Y) {
                    1
                } else {
                    0
                },
                ..self.temp_address_register
            },
            ..self
        }
    }

    /// The state after a write to the mask port.
    pub open spec fn spec_write_mask_register(self, value: u8) -> PPU {
        PPU { mask_register: Mask { bits: value }, ..self }
    }

    /// The state after a write to the OAM address port.
    pub open spec fn spec_write_oam_address_register(self, value: u8) -> PPU {
        PPU { oam_address_register: value, ..self }
    }

    /// The state after a write to the OAM data port: the selected byte
    /// replaced and the OAM address moved on by one, wrapping at 256.
    pub open spec fn spec_write_oam_data_register(self, value: u8) -> PPU {
        let index = (self.oam_address_register / 4) as int;
        PPU {
            oam_sprites: spec_array_update(
                self.oam_sprites,
                index,
                self.oam_sprites[index].spec_set_attribute_by_address(
                    self.oam_address_register,
                    value,
                ),
            ),
            oam_address_register: ((self.oam_address_register + 1) % 256) as u8,
            ..self
        }
    }

    /// The state after a write to the scroll port. The first write of a
    /// pair sets fine X and the temporary coarse X, the second the
    /// temporary fine Y and coarse Y.
    pub open spec fn spec_write_scroll_register(self, value: u8) -> PPU {
        if !self.latch {
            PPU {
                fine_x: value % 8,
                temp_address_register: LoopyRegister {
                    coarse_x: value / 8,
                    ..self.temp_address_register
                },
                latch: true,
                ..self
            }
        } else {
            PPU {
                temp_address_register: LoopyRegister {
                    fine_y: value % 8,
                    coarse_y: value / 8,
                    ..self.temp_address_register
                },
                latch: false,
                ..self
            }
        }
    }

    /// The state after a write to the address port. The first write of a
    /// pair sets bits 8 to 13 of the temporary address and clears bit 14;
    /// the second sets its low byte and copies it to the current address.
    pub open spec fn spec_write_address_register(self, value: u8) -> PPU {
        let address = self.temp_address_register.spec_address();
        if !self.latch {
            PPU {
                temp_address_register: LoopyRegister::spec_set(
                    ((value % 64) as u16 * 256 + address % 256) as u16,
                ),
                latch: true,
                ..self
            }
        } else {
            let address = ((address / 256) * 256 + value as u16) as u16;
            PPU {
                temp_address_register: LoopyRegister::spec_set(address),
                address_register: LoopyRegister::spec_set(address),
                latch: false,
                ..self
            }
        }
    }

    /// The state and the cartridge after a write to the data port: the
    /// byte stored at the current address and the address moved on.
    pub open spec fn spec_write_data_register(self, cart: CartridgeView, value: u8) -> (
        PPU,
        CartridgeView,
    ) {
        let (ppu, cart) = self.spec_write_u8(cart, self.address_register.spec_address(), value);
        (ppu.spec_increment_address_register(), cart)
    }

    /// Reads the status port: the status bits over the low five bits of
    /// the data buffer.
    pub fn read_status_register(&mut self) -> (result: u8)
        ensures
            result == old(self).status_register.spec_read_value(old(self).data_buffer),
            *final(self) == old(self).spec_read_status_register(),
    {
        let result = self.status_register.read(self.data_buffer);
        self.latch = false;
        result
    }

    /// The sprite that the OAM address lies in.
    pub fn get_sprite_index(&self) -> (index: usize)
        ensures
            index == self.oam_address_register / 4,
            index < 64,
    {
        (self.oam_address_register / 4) as usize
    }

    /// The byte of object attribute memory that the OAM address selects.
    pub fn get_oam_data_value(&self) -> (value: u8)
        ensures
            value == self.spec_read_oam_data_register(),
    {
        let index = self.get_sprite_index();
        self.oam_sprites[index].get_attribute_by_address(self.oam_address_register)
    }

    /// Stores a byte where the OAM address points, and leaves the address.
    pub fn set_oam_data_value(&mut self, value: u8)
        ensures
            *final(self) == (PPU {
                oam_address_register: old(self).oam_address_register,
                ..old(self).spec_write_oam_data_register(value)
            }),
    {
        let index = self.get_sprite_index();
        let address = self.oam_address_register;
        self.oam_sprites[index].set_attribute_by_address(address, value);
    }

    /// The byte of object attribute memory that the OAM address selects.
    pub fn read_oam_data_register(&self) -> (value: u8)
        ensures
            value == self.spec_read_oam_data_register(),
    {
        self.get_oam_data_value()
    }

    /// Reads the data port.
    pub fn read_data_register(&mut self, cart: &Cartridge) -> (result: u8)
        requires
            cart@.wf(),
        ensures
            result == old(self).spec_read_data_value(cart@),
            *final(self) == old(self).spec_read_data_register(cart@),
    {
        let address = self.address_register.address() % PPU_ADDRESS_SPACE;
        let mut result = self.data_buffer;
        if address >= PALETTE_PAGE_START {
            result = self.read_u8(cart, address);
            self.data_buffer = self.read_from_internal_memory(cart, address);
        } else {
            self.data_buffer = self.read_u8(cart, address);
        }
        self.increment_address_register();
        result
    }

    /// The state after a write to the control port: the image replaced and
    /// its two name-table bits copied into the temporary address.
    pub fn write_control_register(&mut self, value: u8)
        ensures
            *final(self) == old(self).spec_write_control_register(value),
    {
        self.control_register = Controller::from_bits(value);
        if self.control_register.contains(Controller::NAMETABLE_X) {
            self.temp_address_register.nametable_x = 1;
        } else {
            self.temp_address_register.nametable_x = 0;
        }
        if self.control_register.contains(Controller::NAMETABLE_Y) {
            self.temp_address_register.nametable_y = 1;
        } else {
            self.temp_address_register.nametable_y = 0;
        }
    }

    pub fn write_mask_register(&mut self, value: u8)
        ensures
            *final(self) == old(self).spec_write_mask_register(value),
    {
        self.mask_register = Mask::from_bits(value);
    }

    pub fn write_oam_address_register(&mut self, value: u8)
        ensures
            *final(self) == old(self).spec_write_oam_address_register(value),
    {
        self.oam_address_register = value;
    }

    /// The state after a write to the OAM data port: the selected byte
    /// replaced and the OAM address moved on by one, wrapping at 256.
    pub fn write_oam_data_register(&mut self, value: u8)
        ensures
            *final(self) == old(self).spec_write_oam_data_register(value),
    {
        self.set_oam_data_value(value);
        self.oam_address_register = self.oam_address_register.wrapping_add(1);
    }

    /// The state after a write to the scroll port. The first write of a
    /// pair sets fine X and the temporary coarse X, the second the
    /// temporary fine Y and coarse Y.
    pub fn write_scroll_register(&mut self, value: u8)
        ensures
            *final(self) == old(self).spec_write_scroll_register(value),
    {
        if !self.latch {
            self.fine_x = value % 8;
            self.temp_address_register.set_coarse_x(value / 8);
            self.latch = true;
        } else {
            self.temp_address_register.set_fine_y(value % 8);
            self.temp_address_register.set_coarse_y(value / 8);
            self.latch = false;
        }
    }

    /// The state after a write to the address port. The first write of a
    /// pair sets bits 8 to 13 of the temporary address and clears bit 14;
    /// the second sets its low byte and copies it to the current address.
    pub fn write_address_register(&mut self, value: u8)
        ensures
            *final(self) == old(self).spec_write_address_register(value),
    {
        let address = self.temp_address_register.address();
        if !self.latch {
            let address = ((value % 64) as u16) * 256 + address % 256;
            self.temp_address_register.set(address);
            self.latch = true;
        } else {
            let address = (address / 256) * 256 + value as u16;
            self.temp_address_register.set(address);
            self.address_register.set(address);
            self.latch = false;
        }
    }

    /// The state and the cartridge after a write to the data port: the
    /// byte stored at the current address and the address moved on.
    pub fn write_data_register(&mut self, cart: &mut Cartridge, value: u8)
        requires
            old(cart)@.wf(),
        ensures
            (*final(self), final(cart)@) == old(self).spec_write_data_register(old(cart)@, value),
            final(cart)@.wf(),
    {
        let address = self.address_register.address();
        self.write_u8(cart, address, value);
        self.increment_address_register();
    }

    /// One byte of an OAM transfer: a write to the OAM data port.
    pub fn write_oam_dma_register_seq(&mut self, value: u8)
        ensures
            *final(self) == old(self).spec_write_oam_data_register(value),
    {
        self.write_oam_data_register(value);
    }

    pub fn increment_address_register(&mut self)
        ensures
            *final(self) == old(self).spec_increment_address_register(),
    {
        let vertical_mode = self.control_register.contains(Controller::VRAM_ADDRESS_INCREMENT);
        self.address_register.increment(vertical_mode);
    }
}

/// A byte stored through one of the palette's mirrored entries, $3F10,
/// $3F14, $3F18 or $3F1C, is the byte read at $3F00, $3F04, $3F08 or $3F0C,
/// and the other way round.
pub proof fn lemma_palette_mirror(ppu: PPU, cart: CartridgeView, entry: u16, value: u8)
    requires
        entry == 0x3F10 || entry == 0x3F14 || entry == 0x3F18 || entry == 0x3F1C,
    ensures
        ppu.spec_write_u8(cart, entry, value).0.spec_read_u8(cart, (entry - 0x10) as u16) == value,
        ppu.spec_write_u8(cart, (entry - 0x10) as u16, value).0.spec_read_u8(cart, entry) == value,
        ppu.spec_write_u8(cart, entry, value).1 == cart,
{
}

/// A write to a name-table address is read back at every name-table
/// address that lands on the same byte of name-table memory, and leaves
/// what is read at every name-table address that lands elsewhere.
pub proof fn lemma_nametable_alias(
    ppu: PPU,
    cart: CartridgeView,
    written: u16,
    read: u16,
    value: u8,
)
    requires
        0x2000 <= written <= 0x3EFF,
        0x2000 <= read <= 0x3EFF,
    ensures
        ppu.spec_write_u8(cart, written, value).1 == cart,
        spec_nametable_offset(cart.mirroring, written) == spec_nametable_offset(
            cart.mirroring,
            read,
        ) ==> ppu.spec_write_u8(cart, written, value).0.spec_read_u8(cart, read) == value,
        spec_nametable_offset(cart.mirroring, written) != spec_nametable_offset(
            cart.mirroring,
            read,
        ) ==> ppu.spec_write_u8(cart, written, value).0.spec_read_u8(cart, read)
            == ppu.spec_read_u8(cart, read),
{
    assert(spec_nametable_offset(cart.mirroring, written) < 0x800);
    assert(spec_nametable_offset(cart.mirroring, read) < 0x800);
}

/// Where the four logical name tables start in name-table memory under
/// each of the two arrangements.
proof fn lemma_table_offsets(offset: u16)
    by (bit_vector)
    requires
        offset < 0x400,
    ensures
        ((0x2000 + offset) as u16 % 0x1000) % 0x800 == offset,
        ((0x2400 + offset) as u16 % 0x1000) % 0x800 == 0x400 + offset,
        ((0x2800 + offset) as u16 % 0x1000) % 0x800 == offset,
        ((0x2C00 + offset) as u16 % 0x1000) % 0x800 == 0x400 + offset,
        (((0x2000 + offset) as u16 % 0x1000) / 0x800) * 0x400 + ((0x2000 + offset) as u16
            % 0x1000) % 0x400 == offset,
        (((0x2400 + offset) as u16 % 0x1000) / 0x800) * 0x400 + ((0x2400 + offset) as u16
            % 0x1000) % 0x400 == offset,
        (((0x2800 + offset) as u16 % 0x1000) / 0x800) * 0x400 + ((0x2800 + offset) as u16
            % 0x1000) % 0x400 == 0x400 + offset,
        (((0x2C00 + offset) as u16 % 0x1000) / 0x800) * 0x400 + ((0x2C00 + offset) as u16
            % 0x1000) % 0x400 == 0x400 + offset,
{
}

/// The byte of name-table memory behind each logical table: with
/// horizontal mirroring the tables are A, A, B, B and with vertical
/// mirroring A, B, A, B.
pub proof fn lemma_nametable_layout(cart: CartridgeView, offset: u16)
    requires
        offset < 0x400,
        cart.wf(),
    ensures
        spec_nametable_offset(cart.mirroring, (0x2000 + offset) as u16) == offset,
        spec_nametable_offset(cart.mirroring, (0x2400 + offset) as u16) == if cart.mirroring
            is Horizontal {
            offset as int
        } else {
            0x400 + offset
        },
        spec_nametable_offset(cart.mirroring, (0x2800 + offset) as u16) == if cart.mirroring
            is Horizontal {
            0x400 + offset
        } else {
            offset as int
        },
        spec_nametable_offset(cart.mirroring, (0x2C00 + offset) as u16) == 0x400 + offset,
{
    lemma_table_offsets(offset);
}

/// With horizontal mirroring a write to the first logical name table is
/// read in the second and a write to the third in the fourth, and the other
/// way round; with vertical mirroring the first goes with the third and the
/// second with the fourth. A write to one pair leaves the other pair as it
/// was.
pub proof fn lemma_nametable_mirror(ppu: PPU, cart: CartridgeView, offset: u16, value: u8)
    requires
        offset < 0x400,
        cart.wf(),
    ensures
        ({
            let a = (0x2000 + offset) as u16;
            let b = if cart.mirroring is Horizontal {
                (0x2400 + offset) as u16
            } else {
                (0x2800 + offset) as u16
            };
            let c = if cart.mirroring is Horizontal {
                (0x2800 + offset) as u16
            } else {
                (0x2400 + offset) as u16
            };
            let d = (0x2C00 + offset) as u16;
            &&& ppu.spec_write_u8(cart, a, value).0.spec_read_u8(cart, b) == value
            &&& ppu.spec_write_u8(cart, b, value).0.spec_read_u8(cart, a) == value
            &&& ppu.spec_write_u8(cart, c, value).0.spec_read_u8(cart, d) == value
            &&& ppu.spec_write_u8(cart, d, value).0.spec_read_u8(cart, c) == value
            &&& ppu.spec_write_u8(cart, a, value).0.spec_read_u8(cart, c) == ppu.spec_read_u8(
                cart,
                c,
            )
            &&& ppu.spec_write_u8(cart, c, value).0.spec_read_u8(cart, a) == ppu.spec_read_u8(
                cart,
                a,
            )
        }),
{
    let a = (0x2000 + offset) as u16;
    let b = if cart.mirroring is Horizontal {
        (0x2400 + offset) as u16
    } else {
        (0x2800 + offset) as u16
    };
    let c = if cart.mirroring is Horizontal {
        (0x2800 + offset) as u16
    } else {
        (0x2400 + offset) as u16
    };
    let d = (0x2C00 + offset) as u16;
    lemma_nametable_layout(cart, offset);
    lemma_nametable_alias(ppu, cart, a, b, value);
    lemma_nametable_alias(ppu, cart, b, a, value);
    lemma_nametable_alias(ppu, cart, c, d, value);
    lemma_nametable_alias(ppu, cart, d, c, value);
    lemma_nametable_alias(ppu, cart, a, c, value);
    lemma_nametable_alias(ppu, cart, c, a, value);
}

/// Reads of the data port lag one byte behind: below the palette a read
/// reports what the read before it fetched, fetches the byte at the
/// current address for the next read, and moves the address on. Reading
/// changes nothing else.
pub proof fn lemma_data_port_lag(ppu: PPU, cart: CartridgeView)
    requires
        ppu.address_register.spec_address() % PPU_ADDRESS_SPACE < PALETTE_PAGE_START,
    ensures
        ({
            let address = ppu.address_register.spec_address();
            let step = if ppu.control_register.contains(Controller::VRAM_ADDRESS_INCREMENT) {
                32int
            } else {
                1int
            };
            let next = ppu.spec_read_data_register(cart);
            &&& ppu.spec_read_data_value(cart) == ppu.data_buffer
            &&& next.data_buffer == ppu.spec_read_u8(cart, address)
            &&& next.address_register.spec_address() == (address + step) % 0x8000
            &&& next == (PPU {
                data_buffer: next.data_buffer,
                address_register: next.address_register,
                ..ppu
            })
        }),
{
    let address = ppu.address_register.spec_address();
    let vertical = ppu.control_register.contains(Controller::VRAM_ADDRESS_INCREMENT);
    let step = if vertical {
        32u16
    } else {
        1u16
    };
    let moved = ppu.address_register.spec_increment(vertical);
    assert(moved == LoopyRegister::spec_set((address + step) as u16));
    crate::registers::lemma_set_then_address((address + step) as u16);
    assert(moved.spec_address() == (address + step) % 0x8000);
    let buffered = PPU { data_buffer: ppu.spec_read_u8(cart, address % PPU_ADDRESS_SPACE), ..ppu };
    assert(ppu.spec_read_data_register(cart) == buffered.spec_increment_address_register());
    assert(ppu.spec_read_u8(cart, address % PPU_ADDRESS_SPACE) == ppu.spec_read_u8(cart, address));
}

} // verus!
