//! The picture unit's dot clock: background fetches and shifters, sprite
//! selection, pixel muxing, and the walk through the frame.

use vstd::prelude::*;
use vstd::array::{spec_array_fill_for_copy_type, spec_array_update};
use crate::cartridge::{Cartridge, CartridgeView};
use crate::oam::OamSprite;
use crate::ppu::{
    empty_sprite, ATTRIBUTE_MEMORY_OFFSET, CYCLES_TO_DRAW_SCANLINE, PALETTE_MEMORY_START,
    PATTERN_TABLES_SIZE, PATTERN_TABLE_SIZE, PATTERN_TABLE_WIDTH, PPU, SCANLINES_COUNT,
    SCANLINES_PER_FRAME, SCREEN_HEIGHT, SCREEN_WIDTH, VISIBLE_SCANLINE_CYCLES,
};
use crate::registers::{Controller, Mask, Status};
use crate::timing::lemma_tick_walk;

verus! {

/// A byte with its eight bits in the opposite order.
pub open spec fn spec_flip_byte(byte: u8) -> u8 {
    let byte = (byte & 0xF0) >> 4 | (byte & 0x0F) << 4;
    let byte = (byte & 0xCC) >> 2 | (byte & 0x33) << 2;
    (byte & 0xAA) >> 1 | (byte & 0x55) << 1
}

/// The last line of a frame; the pre-render line, -1, follows it.
pub const LAST_SCANLINE: i32 = 260;

/// Turns the order of the bits of a byte round.
pub fn flip_byte_util(byte: u8) -> (flipped: u8)
    ensures
        flipped == spec_flip_byte(byte),
{
    let byte = (byte & 0xF0) >> 4 | (byte & 0x0F) << 4;
    let byte = (byte & 0xCC) >> 2 | (byte & 0x33) << 2;
    (byte & 0xAA) >> 1 | (byte & 0x55) << 1
}

/// Flipping moves bit `k` to bit `7 - k`, so flipping twice changes nothing.
pub proof fn lemma_flip_byte_reverses(byte: u8)
    by (bit_vector)
    ensures
        spec_flip_byte(spec_flip_byte(byte)) == byte,
        (spec_flip_byte(byte) & 0x01 != 0) == (byte & 0x80 != 0),
        (spec_flip_byte(byte) & 0x02 != 0) == (byte & 0x40 != 0),
        (spec_flip_byte(byte) & 0x04 != 0) == (byte & 0x20 != 0),
        (spec_flip_byte(byte) & 0x08 != 0) == (byte & 0x10 != 0),
        (spec_flip_byte(byte) & 0x10 != 0) == (byte & 0x08 != 0),
        (spec_flip_byte(byte) & 0x20 != 0) == (byte & 0x04 != 0),
        (spec_flip_byte(byte) & 0x40 != 0) == (byte & 0x02 != 0),
        (spec_flip_byte(byte) & 0x80 != 0) == (byte & 0x01 != 0),
{
}

/// A 16-bit shifter one dot later: every bit one place up, the top bit gone.
pub open spec fn shift16(value: u16) -> u16 {
    ((value as u32 * 2) % 0x10000) as u16
}

/// An 8-bit shifter one dot later.
pub open spec fn shift8(value: u8) -> u8 {
    ((value as u16 * 2) % 0x100) as u8
}

/// A 16-bit shifter with its low byte replaced.
pub open spec fn reload_low(shifter: u16, low: u8) -> u16 {
    ((shifter / 256) * 256 + low) as u16
}

/// 1 where the shifter has the bit that `fine_x` selects, counted down from
/// bit 15, and 0 where it has not.
pub open spec fn mux_bit(shifter: u16, fine_x: u8) -> u8 {
    if (shifter & (0x8000u16 >> (fine_x % 8))) > 0 {
        1
    } else {
        0
    }
}

fn shift16_exec(value: u16) -> (r: u16)
    ensures
        r == shift16(value),
{
    ((value as u32 * 2) % 0x10000) as u16
}

fn shift8_exec(value: u8) -> (r: u8)
    ensures
        r == shift8(value),
{
    ((value as u16 * 2) % 0x100) as u8
}

fn mux_bit_exec(shifter: u16, fine_x: u8) -> (r: u8)
    ensures
        r == mux_bit(shifter, fine_x),
{
    if (shifter & (0x8000u16 >> (fine_x % 8))) > 0 {
        1
    } else {
        0
    }
}

impl PPU {
    // ---- small steps ----

    /// Whether the picture unit stands at dot 1 of line 241.
    #[verifier::allow_in_spec]
    pub fn is_end_of_frame(&self) -> bool
        returns
            self.scanlines == SCANLINES_PER_FRAME && self.cycles == 1,
    {
        self.scanlines == SCANLINES_PER_FRAME && self.cycles == 1
    }

    /// The state with no sprite selected.
    pub open spec fn spec_clear_sprites(self) -> PPU {
        PPU {
            scanline_sprites: spec_array_fill_for_copy_type::<OamSprite, 8>(empty_sprite()),
            ..self
        }
    }

    /// The state at dot 1 of the pre-render line: the three status flags
    /// cleared and no sprite selected.
    pub open spec fn spec_new_frame_reset(self) -> PPU {
        PPU { status_register: self.status_register.spec_reset(), ..self }.spec_clear_sprites()
    }

    /// The four background shifters moved on by one dot, where the
    /// background is shown.
    pub open spec fn spec_update_background_shifters(self) -> PPU {
        if self.mask_register.is_background_enabled() {
            PPU {
                background_shifter_pattern_low: shift16(self.background_shifter_pattern_low),
                background_shifter_pattern_high: shift16(self.background_shifter_pattern_high),
                background_shifter_attribute_low: shift16(self.background_shifter_attribute_low),
                background_shifter_attribute_high: shift16(
                    self.background_shifter_attribute_high,
                ),
                ..self
            }
        } else {
            self
        }
    }

    /// Sprite `i` one dot later: its column counter counts down to 0, and
    /// from then on its two shifters move.
    pub open spec fn spec_shift_sprite(self, i: int) -> PPU {
        if self.scanline_sprites[i].x > 0 {
            PPU {
                scanline_sprites: spec_array_update(
                    self.scanline_sprites,
                    i,
                    OamSprite {
                        x: (self.scanline_sprites[i].x - 1) as u8,
                        ..self.scanline_sprites[i]
                    },
                ),
                ..self
            }
        } else {
            PPU {
                sprite_shifter_pattern_low: spec_array_update(
                    self.sprite_shifter_pattern_low,
                    i,
                    shift8(self.sprite_shifter_pattern_low[i]),
                ),
                sprite_shifter_pattern_high: spec_array_update(
                    self.sprite_shifter_pattern_high,
                    i,
                    shift8(self.sprite_shifter_pattern_high[i]),
                ),
                ..self
            }
        }
    }

    /// The first `n` selected sprites one dot later.
    pub open spec fn spec_shift_sprites(self, n: nat) -> PPU
        decreases n,
    {
        if n == 0 {
            self
        } else {
            self.spec_shift_sprites((n - 1) as nat).spec_shift_sprite(n - 1)
        }
    }

    /// All selected sprites one dot later, where sprites are shown and the
    /// dot is one of 1 to 257.
    pub open spec fn spec_update_foreground_shifters(self) -> PPU {
        if self.mask_register.is_foreground_enabled() && self.cycles >= 1 && self.cycles <= 257 {
            self.spec_shift_sprites(self.sprites_count as nat)
        } else {
            self
        }
    }

    /// The state with background and sprite shifters moved on by one dot.
    pub open spec fn spec_update_sprite_shifters(self) -> PPU {
        self.spec_update_background_shifters().spec_update_foreground_shifters()
    }

    /// The state one tile to the right, while rendering is on.
    pub open spec fn spec_increment_scroll_x(self) -> PPU {
        if self.mask_register.is_render_enabled() {
            PPU { address_register: self.address_register.spec_increment_coarse_x(), ..self }
        } else {
            self
        }
    }

    /// The state one line down, while rendering is on.
    pub open spec fn spec_increment_scroll_y(self) -> PPU {
        if self.mask_register.is_render_enabled() {
            PPU { address_register: self.address_register.spec_increment_coarse_y(), ..self }
        } else {
            self
        }
    }

    /// The state with the horizontal scroll reloaded, while rendering is on.
    pub open spec fn spec_transfer_x_address(self) -> PPU {
        if self.mask_register.is_render_enabled() {
            PPU {
                address_register: self.address_register.spec_transfer_x_from(
                    self.temp_address_register,
                ),
                ..self
            }
        } else {
            self
        }
    }

    /// The state with the vertical scroll reloaded, while rendering is on.
    pub open spec fn spec_transfer_y_address(self) -> PPU {
        if self.mask_register.is_render_enabled() {
            PPU {
                address_register: self.address_register.spec_transfer_y_from(
                    self.temp_address_register,
                ),
                ..self
            }
        } else {
            self
        }
    }

    /// At dot 1 of line 241 vertical blank begins, and the interrupt is
    /// raised where the control register asks for it.
    pub open spec fn spec_check_nmi_interrupt(self) -> PPU {
        if self.is_end_of_frame() {
            PPU {
                status_register: self.status_register.spec_insert(Status::VERTICAL_BLANK),
                nmi_interrupt: self.nmi_interrupt || self.control_register.contains(
                    Controller::GENERATE_NMI,
                ),
                ..self
            }
        } else {
            self
        }
    }

    /// The background's pattern and palette numbers at this dot: the bits
    /// that fine X selects from the shifters, or 0 and 0 where the
    /// background is off or the dot lies in a hidden left column.
    pub open spec fn spec_get_background_pixel_info(self) -> (u8, u8) {
        if self.mask_register.is_background_enabled() && self.mask_register.contains(
            Mask::LEFTMOST_SHOW_BACKGROUND,
        ) && self.cycles > 8 {
            (
                (mux_bit(self.background_shifter_pattern_high, self.fine_x) * 2 + mux_bit(
                    self.background_shifter_pattern_low,
                    self.fine_x,
                )) as u8,
                (mux_bit(self.background_shifter_attribute_high, self.fine_x) * 2 + mux_bit(
                    self.background_shifter_attribute_low,
                    self.fine_x,
                )) as u8,
            )
        } else {
            (0, 0)
        }
    }

    /// The pattern number, 0 to 3, that selected sprite `i` shows now.
    pub open spec fn spec_sprite_pixel(self, i: int) -> u8 {
        ((if self.sprite_shifter_pattern_high[i] >= 0x80 {
            2int
        } else {
            0int
        }) + (if self.sprite_shifter_pattern_low[i] >= 0x80 {
            1int
        } else {
            0int
        })) as u8
    }

    /// The first selected sprite, from `i` on, that has reached its column
    /// and shows a pattern other than 0; `sprites_count` where none has.
    pub open spec fn spec_first_opaque_sprite(self, i: int) -> int
        decreases self.sprites_count - i,
    {
        if i < 0 || i >= self.sprites_count {
            self.sprites_count as int
        } else if self.scanline_sprites[i].x == 0 && self.spec_sprite_pixel(i) != 0 {
            i
        } else {
            self.spec_first_opaque_sprite(i + 1)
        }
    }

    /// Whether sprites produce pixels at this dot.
    pub open spec fn spec_sprites_visible(self) -> bool {
        self.mask_register.is_foreground_enabled() && (self.mask_register.contains(
            Mask::LEFTMOST_SHOW_SPRITES,
        ) || self.cycles > 8)
    }

    /// The sprite pixel at this dot: pattern, palette (4 to 7) and whether
    /// it goes in front of the background; all zero where no sprite shows.
    pub open spec fn spec_get_sprite_pixel_value(self) -> (u8, u8, bool) {
        let i = self.spec_first_opaque_sprite(0);
        if self.spec_sprites_visible() && i < self.sprites_count {
            (
                self.spec_sprite_pixel(i),
                (self.scanline_sprites[i].attribute % 4 + 4) as u8,
                self.scanline_sprites[i].attribute & 0x20 == 0,
            )
        } else {
            (0, 0, false)
        }
    }

    /// The state after the sprite pixel was taken: it is remembered when
    /// the pixel came from the first selected sprite.
    pub open spec fn spec_get_sprite_pixel_info(self) -> PPU {
        if self.spec_sprites_visible() && self.spec_first_opaque_sprite(0) == 0
            && self.sprites_count > 0 {
            PPU { is_sprite_zero_hit_rendering: true, ..self }
        } else {
            self
        }
    }

    /// The low bytes of the background shifters reloaded from the fetched
    /// tile: the two pattern bytes, and each attribute bit spread over a
    /// whole byte.
    pub open spec fn spec_load_background_shifters(self) -> PPU {
        PPU {
            background_shifter_pattern_low: reload_low(
                self.background_shifter_pattern_low,
                self.next_background_tile_lsb,
            ),
            background_shifter_pattern_high: reload_low(
                self.background_shifter_pattern_high,
                self.next_background_tile_msb,
            ),
            background_shifter_attribute_low: reload_low(
                self.background_shifter_attribute_low,
                if self.next_background_tile_attribute % 2 == 1 {
                    0xFF
                } else {
                    0x00
                },
            ),
            background_shifter_attribute_high: reload_low(
                self.background_shifter_attribute_high,
                if (self.next_background_tile_attribute / 2) % 2 == 1 {
                    0xFF
                } else {
                    0x00
                },
            ),
            ..self
        }
    }

    /// The address in character memory of the current background tile's
    /// row, in the plane given by `plane` (0 or 8).
    pub open spec fn spec_background_pattern_address(self, plane: u16) -> u16 {
        ((if self.control_register.contains(Controller::BACKROUND_PATTERN_ADDRESS) {
            0x1000int
        } else {
            0int
        }) + self.next_background_tile_id as int * 16 + self.address_register.fine_y() as int
            + plane) as u16
    }

    /// The attribute byte's two bits for the current tile, brought down to
    /// bits 0 and 1 by the quadrant that the tile lies in.
    pub open spec fn spec_attribute_for_quadrant(self, byte: u8) -> u8 {
        let byte = if (self.address_register.coarse_y() / 2) % 2 == 1 {
            byte / 16
        } else {
            byte
        };
        if (self.address_register.coarse_x() / 2) % 2 == 1 {
            byte / 4
        } else {
            byte
        }
    }

    /// One step of the eight-dot background fetch cycle, chosen by the dot:
    /// name-table byte, attribute byte, pattern low, pattern high, and at
    /// the eighth dot the move to the next tile.
    pub open spec fn spec_load_background_info(self, cart: CartridgeView) -> PPU {
        let phase = (self.cycles - 1) % 8;
        if phase == 0 {
            let loaded = self.spec_load_background_shifters();
            PPU {
                next_background_tile_id: loaded.spec_read_from_internal_memory(
                    cart,
                    loaded.address_register.vram_address(),
                ),
                ..loaded
            }
        } else if phase == 2 {
            PPU {
                next_background_tile_attribute: self.spec_attribute_for_quadrant(
                    self.spec_read_from_internal_memory(
                        cart,
                        (ATTRIBUTE_MEMORY_OFFSET
                            + self.address_register.next_tile_attribute_address()) as u16,
                    ),
                ),
                ..self
            }
        } else if phase == 4 {
            PPU {
                next_background_tile_lsb: self.spec_read_u8(
                    cart,
                    self.spec_background_pattern_address(0),
                ),
                ..self
            }
        } else if phase == 6 {
            PPU {
                next_background_tile_msb: self.spec_read_u8(
                    cart,
                    self.spec_background_pattern_address(8),
                ),
                ..self
            }
        } else if phase == 7 {
            self.spec_increment_scroll_x()
        } else {
            self
        }
    }

    /// Whether entry `i` of object attribute memory covers the current
    /// line: the line is one of the sprite's, counted from its top.
    pub open spec fn spec_sprite_in_range(self, i: int) -> bool {
        0 <= self.scanlines - self.oam_sprites[i].y < self.control_register.get_sprite_size()
    }

    /// The state after entries 0 to `n - 1` of object attribute memory were
    /// examined, and whether a ninth sprite was found on the line. The
    /// first eight that cover the line are selected, in order; entry 0
    /// among them arms the sprite-zero flag.
    pub open spec fn spec_scan_oam(self, n: nat) -> (PPU, bool)
        decreases n,
    {
        if n == 0 {
            (self, false)
        } else {
            let (ppu, overflow) = self.spec_scan_oam((n - 1) as nat);
            ppu.spec_scan_oam_entry(n - 1, overflow)
        }
    }

    /// The state after entry `i` of object attribute memory was examined,
    /// and whether a ninth sprite was found by then.
    pub open spec fn spec_scan_oam_entry(self, i: int, overflow: bool) -> (PPU, bool) {
        if self.spec_sprite_in_range(i) {
            if self.sprites_count < 8 {
                (
                    PPU {
                        scanline_sprites: spec_array_update(
                            self.scanline_sprites,
                            self.sprites_count as int,
                            self.oam_sprites[i],
                        ),
                        sprites_count: (self.sprites_count + 1) as u8,
                        has_sprite_zero_hit: self.has_sprite_zero_hit || i == 0,
                        ..self
                    },
                    overflow,
                )
            } else {
                (self, true)
            }
        } else {
            (self, overflow)
        }
    }

    /// Sprite selection, at dot 257 of lines 0 and up: the sprites for the
    /// line are chosen afresh and sprite overflow says whether there was a
    /// ninth.
    pub open spec fn spec_evaluate_sprites(self) -> PPU {
        if self.scanlines >= 0 && self.cycles == VISIBLE_SCANLINE_CYCLES + 1 {
            let (ppu, overflow) = PPU {
                sprites_count: 0,
                sprite_shifter_pattern_low: spec_array_fill_for_copy_type::<u8, 8>(0u8),
                sprite_shifter_pattern_high: spec_array_fill_for_copy_type::<u8, 8>(0u8),
                ..self.spec_clear_sprites()
            }.spec_scan_oam(64);
            PPU {
                status_register: ppu.status_register.spec_set(Status::SPRITE_OVERFLOW, overflow),
                ..ppu
            }
        } else {
            self
        }
    }

    /// The line of the sprite, counted from its top, that the current line
    /// shows.
    pub open spec fn spec_sprite_row(self, sprite: OamSprite) -> i32 {
        (self.scanlines - sprite.y) as i32
    }

    /// The address in character memory of the low plane of the sprite's row
    /// on the current line. An 8-line sprite takes its table from the
    /// control register; a 16-line sprite takes it from bit 0 of its tile
    /// number and its tile from the half that the row lies in. Attribute
    /// bit 7 turns the rows upside down.
    pub open spec fn spec_get_sprite_pattern_address_low(self, sprite: OamSprite) -> u16 {
        let row = self.spec_sprite_row(sprite);
        let flipped = sprite.attribute & 0x80 != 0;
        if !self.control_register.contains(Controller::SPRITE_SIZE) {
            let table: u16 = if self.control_register.contains(
                Controller::SPRITE_PATTERN_ADDRESS,
            ) {
                1
            } else {
                0
            };
            if !flipped {
                (table << 12) | ((sprite.id as u16) << 4) | (row as u16)
            } else {
                (table << 12) | ((sprite.id as u16) << 4) | ((7 - row) as u16)
            }
        } else {
            let table = ((sprite.id & 0x1) as u16) << 12;
            let tile = (sprite.id & 0xEF) as u16;
            if !flipped {
                if row < 8 {
                    table | (tile << 4) | ((row & 0x7) as u16)
                } else {
                    table | (((tile + 1) as u16) << 4) | ((row & 0x7) as u16)
                }
            } else {
                if row < 8 {
                    table | (((tile + 1) as u16) << 4) | ((((7 - row) as i32) & 0x7) as u16)
                } else {
                    table | (tile << 4) | ((((7 - row) as i32) & 0x7) as u16)
                }
            }
        }
    }

    /// Selected sprite `i` with its two shifters loaded from its row's
    /// pattern bytes, mirrored where attribute bit 6 is set.
    pub open spec fn spec_prepare_sprite(self, cart: CartridgeView, i: int) -> PPU {
        let sprite = self.scanline_sprites[i];
        let low_address = self.spec_get_sprite_pattern_address_low(sprite);
        let high_address = ((low_address + 8) % 0x10000) as u16;
        let low = self.spec_read_u8(cart, low_address);
        let high = self.spec_read_u8(cart, high_address);
        let mirrored = sprite.attribute & 0x40 > 0;
        PPU {
            sprite_shifter_pattern_low: spec_array_update(
                self.sprite_shifter_pattern_low,
                i,
                if mirrored {
                    spec_flip_byte(low)
                } else {
                    low
                },
            ),
            sprite_shifter_pattern_high: spec_array_update(
                self.sprite_shifter_pattern_high,
                i,
                if mirrored {
                    spec_flip_byte(high)
                } else {
                    high
                },
            ),
            ..self
        }
    }

    /// The first `n` selected sprites with their shifters loaded.
    pub open spec fn spec_prepare_sprites(self, cart: CartridgeView, n: nat) -> PPU
        decreases n,
    {
        if n == 0 {
            self
        } else {
            self.spec_prepare_sprites(cart, (n - 1) as nat).spec_prepare_sprite(cart, n - 1)
        }
    }

    /// At dot 340 the shifters of all selected sprites are loaded.
    pub open spec fn spec_prepare_sprite_shifters(self, cart: CartridgeView) -> PPU {
        if self.cycles == 340 {
            self.spec_prepare_sprites(cart, self.sprites_count as nat)
        } else {
            self
        }
    }

    /// Whether a sprite-zero hit is recorded when an opaque sprite pixel
    /// meets an opaque background pixel at this dot.
    pub open spec fn spec_sprite_zero_hits(self) -> bool {
        &&& self.has_sprite_zero_hit
        &&& self.is_sprite_zero_hit_rendering
        &&& self.mask_register.is_background_enabled()
        &&& self.mask_register.is_foreground_enabled()
        &&& self.cycles <= VISIBLE_SCANLINE_CYCLES
        &&& if self.mask_register.contains(Mask::LEFTMOST_SHOW_BACKGROUND)
            && self.mask_register.contains(Mask::LEFTMOST_SHOW_SPRITES) {
            self.cycles > 0
        } else {
            self.cycles > 8
        }
    }

    /// The state with the sprite-zero hit recorded where there is one.
    pub open spec fn spec_evaluate_sprite_zero_hit(self) -> PPU {
        if self.spec_sprite_zero_hits() {
            PPU {
                status_register: self.status_register.spec_insert(Status::SPRITE_ZERO_HIT),
                ..self
            }
        } else {
            self
        }
    }

    /// The pattern and palette that the dot shows, given what background
    /// and sprite offer: pattern 0 is transparent, and where both are
    /// opaque the sprite's priority decides.
    pub open spec fn spec_evaluate_pixel_value(
        bg_pixel: u8,
        bg_palette: u8,
        fg_pixel: u8,
        fg_palette: u8,
        fg_priority: bool,
    ) -> (u8, u8) {
        if bg_pixel == 0 && fg_pixel == 0 {
            (0, 0)
        } else if bg_pixel == 0 {
            (fg_pixel, fg_palette)
        } else if fg_pixel == 0 {
            (bg_pixel, bg_palette)
        } else if fg_priority {
            (fg_pixel, fg_palette)
        } else {
            (bg_pixel, bg_palette)
        }
    }

    /// The state after the dot's pixel was chosen: only where both pixels
    /// are opaque can a sprite-zero hit be recorded.
    pub open spec fn spec_evaluate_pixel(self, bg_pixel: u8, fg_pixel: u8) -> PPU {
        if bg_pixel > 0 && fg_pixel > 0 {
            self.spec_evaluate_sprite_zero_hit()
        } else {
            self
        }
    }

    /// The palette address of a pattern number within a palette.
    pub open spec fn spec_pixel_address(pixel: u8, palette: u8) -> u16 {
        (PALETTE_MEMORY_START + (palette as u16 * 4) % 256 + pixel) as u16
    }

    /// The screen with the dot in column `x` of line `y` set to the colour
    /// that palette memory holds for the pattern and palette, taken modulo
    /// 64: palette memory is six bits wide.
    pub open spec fn spec_draw_pixel(
        self,
        cart: CartridgeView,
        x: usize,
        y: usize,
        pixel: u8,
        palette: u8,
    ) -> PPU {
        PPU {
            screen: spec_array_update(
                self.screen,
                y * SCREEN_WIDTH + x,
                self.spec_read_u8(cart, Self::spec_pixel_address(pixel, palette)) % 64,
            ),
            ..self
        }
    }

    /// The position after a dot: past dot 340 the next line begins, and
    /// past line 260 the pre-render line of the next frame, with the frame
    /// reported complete.
    pub open spec fn spec_increment_scanline(self) -> PPU {
        if self.cycles >= CYCLES_TO_DRAW_SCANLINE {
            if self.scanlines >= LAST_SCANLINE {
                PPU {
                    cycles: 0,
                    scanlines: -1i32,
                    completed_frame: true,
                    odd_frame: !self.odd_frame,
                    ..self
                }
            } else {
                PPU { cycles: 0, scanlines: (self.scanlines + 1) as i32, ..self }
            }
        } else {
            self
        }
    }

    /// The cartridge after a dot: its scanline hook runs while rendering
    /// is on.
    pub open spec fn spec_notify_cartridge(self, cart: CartridgeView) -> CartridgeView {
        if self.mask_register.is_render_enabled() {
            cart.scanline()
        } else {
            cart
        }
    }

    /// Whether the line is one on which the picture unit fetches: the
    /// pre-render line or a visible one.
    pub open spec fn spec_on_render_line(self) -> bool {
        self.scanlines >= -1 && self.scanlines < SCANLINES_PER_FRAME - 1
    }

    /// Whether two states stand at the same dot with as many sprites
    /// selected and show the same screen.
    pub open spec fn same_position(self, other: PPU) -> bool {
        &&& self.cycles == other.cycles
        &&& self.scanlines == other.scanlines
        &&& self.sprites_count == other.sprites_count
        &&& self.screen == other.screen
    }

    /// The background half of a render line's dot: the skipped dot of line
    /// 0, the reset of the pre-render line, the fetch cycle and the scroll
    /// moves of dots 256 and 257.
    pub open spec fn spec_background_stage(self, cart: CartridgeView) -> PPU {
        let p = if self.scanlines == 0 && self.cycles == 0
            && self.mask_register.is_render_enabled() {
            PPU { cycles: 1, ..self }
        } else {
            self
        };
        let p = if p.scanlines == -1 && p.cycles == 1 {
            p.spec_new_frame_reset()
        } else {
            p
        };
        let p = if (p.cycles >= 2 && p.cycles <= 257) || (p.cycles >= 321 && p.cycles <= 337) {
            p.spec_update_sprite_shifters().spec_load_background_info(cart)
        } else {
            p
        };
        let p = if p.cycles == VISIBLE_SCANLINE_CYCLES {
            p.spec_increment_scroll_y()
        } else {
            p
        };
        if p.cycles == VISIBLE_SCANLINE_CYCLES + 1 {
            p.spec_load_background_shifters().spec_transfer_x_address()
        } else {
            p
        }
    }

    /// The sprite half of a render line's dot: sprite selection, the two
    /// spare name-table fetches, the sprite shifter load and the vertical
    /// scroll copy of the pre-render line.
    pub open spec fn spec_sprite_stage(self, cart: CartridgeView) -> PPU {
        let p = self.spec_evaluate_sprites();
        let p = if p.cycles == 338 || p.cycles == 340 {
            PPU {
                next_background_tile_id: p.spec_read_from_internal_memory(
                    cart,
                    p.address_register.vram_address(),
                ),
                ..p
            }
        } else {
            p
        };
        let p = p.spec_prepare_sprite_shifters(cart);
        if p.scanlines == -1 && p.cycles >= 280 && p.cycles < 305 {
            p.spec_transfer_y_address()
        } else {
            p
        }
    }

    /// What a render line does at its dot, before the pixel is produced.
    pub open spec fn spec_render_line_step(self, cart: CartridgeView) -> PPU {
        self.spec_background_stage(cart).spec_sprite_stage(cart)
    }

    /// The pixel stage of a dot: the background and sprite pixels are
    /// taken, one is chosen, and on a visible dot it is drawn.
    pub open spec fn spec_pixel_step(self, cart: CartridgeView) -> PPU {
        let (bg_pixel, bg_palette) = self.spec_get_background_pixel_info();
        let (fg_pixel, fg_palette, fg_priority) = self.spec_get_sprite_pixel_value();
        let p = self.spec_get_sprite_pixel_info().spec_evaluate_pixel(bg_pixel, fg_pixel);
        let (pixel, palette) = Self::spec_evaluate_pixel_value(
            bg_pixel,
            bg_palette,
            fg_pixel,
            fg_palette,
            fg_priority,
        );
        if p.scanlines >= 0 && p.scanlines < SCREEN_HEIGHT && p.cycles > 0 && p.cycles
            <= SCREEN_WIDTH {
            p.spec_draw_pixel(cart, (p.cycles - 1) as usize, p.scanlines as usize, pixel, palette)
        } else {
            p
        }
    }

    /// The end of a dot: the dot counter and the running total move on,
    /// the total wrapping at the machine's word, and the position wraps
    /// into the next line or frame.
    pub open spec fn spec_advance_dot(self) -> PPU {
        PPU {
            cycles: (self.cycles + 1) as usize,
            total_cycles: if self.total_cycles == usize::MAX {
                0
            } else {
                (self.total_cycles + 1) as usize
            },
            ..self
        }.spec_increment_scanline()
    }

    /// The state one dot later.
    pub open spec fn spec_tick(self, cart: CartridgeView) -> PPU {
        let p = if self.spec_on_render_line() {
            self.spec_render_line_step(cart)
        } else {
            self
        };
        p.spec_check_nmi_interrupt().spec_pixel_step(cart).spec_advance_dot()
    }
}

impl PPU {
    pub fn clear_sprites(&mut self)
        ensures
            *final(self) == old(self).spec_clear_sprites(),
    {
        self.scanline_sprites = [OamSprite::new_empty(); 8];
    }

    /// The state at dot 1 of the pre-render line: the three status flags
    /// cleared and no sprite selected.
    pub fn new_frame_reset(&mut self)
        ensures
            *final(self) == old(self).spec_new_frame_reset(),
    {
        self.status_register.reset();
        self.clear_sprites();
    }

    /// The four background shifters moved on by one dot, where the
    /// background is shown.
    pub fn update_background_shifters(&mut self)
        ensures
            *final(self) == old(self).spec_update_background_shifters(),
    {
        if self.mask_register.is_background_enabled() {
            self.background_shifter_pattern_low = shift16_exec(
                self.background_shifter_pattern_low,
            );
            self.background_shifter_pattern_high = shift16_exec(
                self.background_shifter_pattern_high,
            );
            self.background_shifter_attribute_low = shift16_exec(
                self.background_shifter_attribute_low,
            );
            self.background_shifter_attribute_high = shift16_exec(
                self.background_shifter_attribute_high,
            );
        }
    }

    fn shift_sprite(&mut self, i: usize)
        requires
            i < 8,
        ensures
            *final(self) == old(self).spec_shift_sprite(i as int),
            old(self).same_position(*final(self)),
    {
        if self.scanline_sprites[i].x > 0 {
            self.scanline_sprites[i].x -= 1;
        } else {
            self.sprite_shifter_pattern_low[i] = shift8_exec(self.sprite_shifter_pattern_low[i]);
            self.sprite_shifter_pattern_high[i] = shift8_exec(
                self.sprite_shifter_pattern_high[i],
            );
        }
    }

    /// All selected sprites one dot later, where sprites are shown and the
    /// dot is one of 1 to 257.
    pub fn update_foreground_shifters(&mut self)
        requires
            old(self).sprites_count <= 8,
        ensures
            *final(self) == old(self).spec_update_foreground_shifters(),
            old(self).same_position(*final(self)),
    {
        if self.mask_register.is_foreground_enabled() && self.cycles >= 1 && self.cycles <= 257 {
            let ghost start = *self;
            let count = self.sprites_count as usize;
            let mut i: usize = 0;
            while i < count
                invariant
                    i <= count <= 8,
                    *self == start.spec_shift_sprites(i as nat),
                    start.same_position(*self),
                decreases count - i,
            {
                self.shift_sprite(i);
                i += 1;
            }
        }
    }

    pub fn update_sprite_shifters(&mut self)
        requires
            old(self).sprites_count <= 8,
        ensures
            *final(self) == old(self).spec_update_sprite_shifters(),
            old(self).same_position(*final(self)),
    {
        self.update_background_shifters();
        self.update_foreground_shifters();
    }

    pub fn increment_scroll_x(&mut self)
        ensures
            *final(self) == old(self).spec_increment_scroll_x(),
    {
        if self.mask_register.is_render_enabled() {
            self.address_register.increment_coarse_x();
        }
    }

    pub fn increment_scroll_y(&mut self)
        ensures
            *final(self) == old(self).spec_increment_scroll_y(),
    {
        if self.mask_register.is_render_enabled() {
            self.address_register.increment_coarse_y();
        }
    }

    pub fn transfer_x_address(&mut self)
        ensures
            *final(self) == old(self).spec_transfer_x_address(),
    {
        if self.mask_register.is_render_enabled() {
            let source = self.temp_address_register;
            self.address_register.transfer_x_from(&source);
        }
    }

    pub fn transfer_y_address(&mut self)
        ensures
            *final(self) == old(self).spec_transfer_y_address(),
    {
        if self.mask_register.is_render_enabled() {
            let source = self.temp_address_register;
            self.address_register.transfer_y_from(&source);
        }
    }

    /// At dot 1 of line 241 vertical blank begins, and the interrupt is
    /// raised where the control register asks for it.
    pub fn check_nmi_interrupt(&mut self)
        ensures
            *final(self) == old(self).spec_check_nmi_interrupt(),
            old(self).same_position(*final(self)),
    {
        if self.scanlines >= SCANLINES_PER_FRAME && self.scanlines < SCANLINES_COUNT {
            if self.is_end_of_frame() {
                self.status_register.insert(Status::VERTICAL_BLANK);
                if self.control_register.contains(Controller::GENERATE_NMI) {
                    self.nmi_interrupt = true;
                }
            }
        }
    }

    /// The background's pattern and palette numbers at this dot: the bits
    /// that fine X selects from the shifters, or 0 and 0 where the
    /// background is off or the dot lies in a hidden left column.
    pub fn get_background_pixel_info(&self) -> (info: (u8, u8))
        ensures
            info == self.spec_get_background_pixel_info(),
    {
        if self.mask_register.is_background_enabled() {
            if self.mask_register.contains(Mask::LEFTMOST_SHOW_BACKGROUND) && self.cycles > 8 {
                let plane_pixel_0 = mux_bit_exec(self.background_shifter_pattern_low, self.fine_x);
                let plane_pixel_1 = mux_bit_exec(
                    self.background_shifter_pattern_high,
                    self.fine_x,
                );
                let pixel_palette_0 = mux_bit_exec(
                    self.background_shifter_attribute_low,
                    self.fine_x,
                );
                let pixel_palette_1 = mux_bit_exec(
                    self.background_shifter_attribute_high,
                    self.fine_x,
                );
                return (plane_pixel_1 * 2 + plane_pixel_0, pixel_palette_1 * 2 + pixel_palette_0);
            }
        }
        (0, 0)
    }

    fn sprite_pixel(&self, i: usize) -> (pixel: u8)
        requires
            i < 8,
        ensures
            pixel == self.spec_sprite_pixel(i as int),
    {
        let pixel_low: u8 = if self.sprite_shifter_pattern_low[i] >= 0x80 {
            1
        } else {
            0
        };
        let pixel_high: u8 = if self.sprite_shifter_pattern_high[i] >= 0x80 {
            2
        } else {
            0
        };
        pixel_high + pixel_low
    }

    fn first_opaque_sprite(&self) -> (found: usize)
        requires
            self.sprites_count <= 8,
        ensures
            found == self.spec_first_opaque_sprite(0),
            found <= self.sprites_count,
    {
        let count = self.sprites_count as usize;
        let mut i: usize = 0;
        while i < count && !(self.scanline_sprites[i].x == 0 && self.sprite_pixel(i) != 0)
            invariant
                i <= count <= 8,
                count == self.sprites_count,
                self.spec_first_opaque_sprite(0) == self.spec_first_opaque_sprite(i as int),
            decreases count - i,
        {
            i += 1;
        }
        i
    }

    /// Takes the sprite pixel at this dot and remembers whether it came from
    /// the first selected sprite.
    pub fn get_sprite_pixel_info(&mut self) -> (info: (u8, u8, bool))
        requires
            old(self).sprites_count <= 8,
        ensures
            info == old(self).spec_get_sprite_pixel_value(),
            *final(self) == old(self).spec_get_sprite_pixel_info(),
    {
        if self.mask_register.is_foreground_enabled() {
            if self.mask_register.contains(Mask::LEFTMOST_SHOW_SPRITES) || self.cycles > 8 {
                let i = self.first_opaque_sprite();
                if i < self.sprites_count as usize {
                    let pixel = self.sprite_pixel(i);
                    let attribute = self.scanline_sprites[i].attribute;
                    if i == 0 {
                        self.is_sprite_zero_hit_rendering = true;
                    }
                    return (pixel, attribute % 4 + 4, attribute & 0x20 == 0);
                }
            }
        }
        (0, 0, false)
    }

    /// The low bytes of the background shifters reloaded from the fetched
    /// tile: the two pattern bytes, and each attribute bit spread over a
    /// whole byte.
    pub fn load_background_shifters(&mut self)
        ensures
            *final(self) == old(self).spec_load_background_shifters(),
    {
        self.background_shifter_pattern_low = (self.background_shifter_pattern_low / 256) * 256
            + self.next_background_tile_lsb as u16;
        self.background_shifter_pattern_high = (self.background_shifter_pattern_high / 256) * 256
            + self.next_background_tile_msb as u16;
        let attribute_low: u16 = if self.next_background_tile_attribute % 2 == 1 {
            0xFF
        } else {
            0x00
        };
        let attribute_high: u16 = if (self.next_background_tile_attribute / 2) % 2 == 1 {
            0xFF
        } else {
            0x00
        };
        self.background_shifter_attribute_low = (self.background_shifter_attribute_low / 256)
            * 256 + attribute_low;
        self.background_shifter_attribute_high = (self.background_shifter_attribute_high / 256)
            * 256 + attribute_high;
    }

    fn background_pattern_address(&self, plane: u16) -> (address: u16)
        requires
            plane <= 8,
        ensures
            address == self.spec_background_pattern_address(plane),
    {
        let table: u16 = if self.control_register.contains(Controller::BACKROUND_PATTERN_ADDRESS) {
            0x1000
        } else {
            0
        };
        table + (self.next_background_tile_id as u16) * 16 + self.address_register.fine_y() as u16
            + plane
    }

    /// One step of the eight-dot background fetch cycle, chosen by the dot:
    /// name-table byte, attribute byte, pattern low, pattern high, and at
    /// the eighth dot the move to the next tile.
    pub fn load_background_info(&mut self, cart: &Cartridge)
        requires
            old(self).cycles >= 1,
            cart@.wf(),
        ensures
            *final(self) == old(self).spec_load_background_info(cart@),
            old(self).same_position(*final(self)),
    {
        let phase = (self.cycles - 1) % 8;
        if phase == 0 {
            self.load_background_shifters();
            self.next_background_tile_id = self.read_from_internal_memory(
                cart,
                self.address_register.vram_address(),
            );
        } else if phase == 2 {
            let address = ATTRIBUTE_MEMORY_OFFSET
                + self.address_register.next_tile_attribute_address();
            let mut attribute = self.read_from_internal_memory(cart, address);
            if (self.address_register.coarse_y() / 2) % 2 == 1 {
                attribute = attribute / 16;
            }
            if (self.address_register.coarse_x() / 2) % 2 == 1 {
                attribute = attribute / 4;
            }
            self.next_background_tile_attribute = attribute;
        } else if phase == 4 {
            let address = self.background_pattern_address(0);
            self.next_background_tile_lsb = self.read_u8(cart, address);
        } else if phase == 6 {
            let address = self.background_pattern_address(8);
            self.next_background_tile_msb = self.read_u8(cart, address);
        } else if phase == 7 {
            self.increment_scroll_x();
        }
    }

    fn scan_oam_entry(&mut self, i: usize, overflow: bool) -> (found_ninth: bool)
        requires
            old(self).wf(),
            i < 64,
        ensures
            (*final(self), found_ninth) == old(self).spec_scan_oam_entry(i as int, overflow),
            final(self).wf(),
            final(self).cycles == old(self).cycles,
            final(self).scanlines == old(self).scanlines,
    {
        let sprite = self.oam_sprites[i];
        let diff: i32 = self.scanlines - sprite.y as i32;
        if diff >= 0 && diff < self.control_register.get_sprite_size() as i32 {
            if self.sprites_count < 8 {
                if i == 0 {
                    self.has_sprite_zero_hit = true;
                }
                self.scanline_sprites[self.sprites_count as usize] = sprite;
                self.sprites_count += 1;
                overflow
            } else {
                true
            }
        } else {
            overflow
        }
    }

    /// Sprite selection, at dot 257 of lines 0 and up: the sprites for the
    /// line are chosen afresh and sprite overflow says whether there was a
    /// ninth.
    pub fn evaluate_sprites(&mut self)
        requires
            old(self).wf(),
        ensures
            *final(self) == old(self).spec_evaluate_sprites(),
            final(self).wf(),
            final(self).cycles == old(self).cycles,
            final(self).scanlines == old(self).scanlines,
    {
        if self.scanlines >= 0 && self.cycles == VISIBLE_SCANLINE_CYCLES + 1 {
            self.clear_sprites();
            self.sprites_count = 0;
            self.sprite_shifter_pattern_low = [0u8; 8];
            self.sprite_shifter_pattern_high = [0u8; 8];
            let ghost start = *self;
            let mut overflow = false;
            let mut i: usize = 0;
            while i < 64
                invariant
                    i <= 64,
                    (*self, overflow) == start.spec_scan_oam(i as nat),
                    self.wf(),
                    self.cycles == start.cycles,
                    self.scanlines == start.scanlines,
                decreases 64 - i,
            {
                overflow = self.scan_oam_entry(i, overflow);
                i += 1;
            }
            self.status_register.set(Status::SPRITE_OVERFLOW, overflow);
        }
    }

    /// The address in character memory of the low plane of the sprite's row
    /// on the current line. An 8-line sprite takes its table from the
    /// control register; a 16-line sprite takes it from bit 0 of its tile
    /// number and its tile from the half that the row lies in. Attribute
    /// bit 7 turns the rows upside down.
    pub fn get_sprite_pattern_address_low(&self, sprite: &OamSprite) -> (address: u16)
        requires
            self.wf(),
        ensures
            address == self.spec_get_sprite_pattern_address_low(*sprite),
    {
        let row: i32 = self.scanlines - sprite.y as i32;
        let flipped = sprite.attribute & 0x80 != 0;
        if !self.control_register.contains(Controller::SPRITE_SIZE) {
            let table: u16 = if self.control_register.contains(
                Controller::SPRITE_PATTERN_ADDRESS,
            ) {
                1
            } else {
                0
            };
            if !flipped {
                (table << 12) | ((sprite.id as u16) << 4) | (#[verifier::truncate] (row as u16))
            } else {
                (table << 12) | ((sprite.id as u16) << 4) | (#[verifier::truncate] ((7 - row) as u16))
            }
        } else {
            let table = ((sprite.id & 0x1) as u16) << 12;
            let tile = (sprite.id & 0xEF) as u16;
            if !flipped {
                if row < 8 {
                    table | (tile << 4) | (#[verifier::truncate] ((row & 0x7) as u16))
                } else {
                    table | ((tile + 1) << 4) | (#[verifier::truncate] ((row & 0x7) as u16))
                }
            } else {
                if row < 8 {
                    table | ((tile + 1) << 4) | (#[verifier::truncate] (((7 - row) & 0x7) as u16))
                } else {
                    table | (tile << 4) | (#[verifier::truncate] (((7 - row) & 0x7) as u16))
                }
            }
        }
    }

    fn prepare_sprite(&mut self, cart: &Cartridge, i: usize)
        requires
            old(self).wf(),
            cart@.wf(),
            i < 8,
        ensures
            *final(self) == old(self).spec_prepare_sprite(cart@, i as int),
            old(self).same_position(*final(self)),
    {
        let sprite = self.scanline_sprites[i];
        let low_address = self.get_sprite_pattern_address_low(&sprite);
        let high_address = low_address.wrapping_add(8);
        let mut low = self.read_u8(cart, low_address);
        let mut high = self.read_u8(cart, high_address);
        if sprite.attribute & 0x40 > 0 {
            low = flip_byte_util(low);
            high = flip_byte_util(high);
        }
        self.sprite_shifter_pattern_low[i] = low;
        self.sprite_shifter_pattern_high[i] = high;
    }

    /// At dot 340 the shifters of all selected sprites are loaded.
    pub fn prepare_sprite_shifters(&mut self, cart: &Cartridge)
        requires
            old(self).wf(),
            cart@.wf(),
        ensures
            *final(self) == old(self).spec_prepare_sprite_shifters(cart@),
            old(self).same_position(*final(self)),
    {
        if self.cycles == 340 {
            let ghost start = *self;
            let count = self.sprites_count as usize;
            let mut i: usize = 0;
            while i < count
                invariant
                    i <= count <= 8,
                    cart@.wf(),
                    self.wf(),
                    *self == start.spec_prepare_sprites(cart@, i as nat),
                    start.same_position(*self),
                decreases count - i,
            {
                self.prepare_sprite(cart, i);
                i += 1;
            }
        }
    }

    pub fn evaluate_sprite_zero_hit(&mut self)
        ensures
            *final(self) == old(self).spec_evaluate_sprite_zero_hit(),
    {
        if self.has_sprite_zero_hit && self.is_sprite_zero_hit_rendering {
            if self.mask_register.is_background_enabled()
                && self.mask_register.is_foreground_enabled() {
                if !(self.mask_register.contains(Mask::LEFTMOST_SHOW_BACKGROUND)
                    && self.mask_register.contains(Mask::LEFTMOST_SHOW_SPRITES)) {
                    if self.cycles > 8 && self.cycles <= VISIBLE_SCANLINE_CYCLES {
                        self.status_register.insert(Status::SPRITE_ZERO_HIT);
                    }
                } else {
                    if self.cycles > 0 && self.cycles <= VISIBLE_SCANLINE_CYCLES {
                        self.status_register.insert(Status::SPRITE_ZERO_HIT);
                    }
                }
            }
        }
    }

    /// Chooses between background and sprite pixel, and records a sprite-zero
    /// hit where both are opaque.
    pub fn evaluate_pixel(
        &mut self,
        bg_pixel: u8,
        bg_palette: u8,
        fg_pixel: u8,
        fg_palette: u8,
        fg_priority: bool,
    ) -> (chosen: (u8, u8))
        ensures
            chosen == Self::spec_evaluate_pixel_value(
                bg_pixel,
                bg_palette,
                fg_pixel,
                fg_palette,
                fg_priority,
            ),
            *final(self) == old(self).spec_evaluate_pixel(bg_pixel, fg_pixel),
    {
        if bg_pixel == 0 && fg_pixel == 0 {
            (0, 0)
        } else if bg_pixel == 0 {
            (fg_pixel, fg_palette)
        } else if fg_pixel == 0 {
            (bg_pixel, bg_palette)
        } else {
            self.evaluate_sprite_zero_hit();
            if fg_priority {
                (fg_pixel, fg_palette)
            } else {
                (bg_pixel, bg_palette)
            }
        }
    }

    /// The screen with the dot in column `x` of line `y` set to the colour
    /// that palette memory holds for the pattern and palette.
    pub fn draw_pixel(&mut self, cart: &Cartridge, x: usize, y: usize, pixel: u8, palette: u8)
        requires
            x < SCREEN_WIDTH,
            y < SCREEN_HEIGHT,
            cart@.wf(),
        ensures
            *final(self) == old(self).spec_draw_pixel(cart@, x, y, pixel, palette),
            old(self).screen_in_range() ==> final(self).screen_in_range(),
    {
        let color = self.read_u8(
            cart,
            PALETTE_MEMORY_START + (palette as u16 * 4) % 256 + pixel as u16,
        );
        self.screen[y * SCREEN_WIDTH + x] = color % 64;
    }

    /// The cartridge after a dot: its scanline hook runs while rendering
    /// is on.
    pub fn notify_cartridge(&self, cart: &mut Cartridge)
        ensures
            final(cart)@ == self.spec_notify_cartridge(old(cart)@),
            old(cart)@.wf() ==> final(cart)@.wf(),
    {
        if self.mask_register.is_render_enabled() {
            cart.scanline();
        }
    }

    /// The position after a dot: past dot 340 the next line begins, and
    /// past line 260 the pre-render line of the next frame, with the frame
    /// reported complete.
    pub fn increment_scanline(&mut self)
        requires
            -1 <= old(self).scanlines <= 260,
        ensures
            *final(self) == old(self).spec_increment_scanline(),
            old(self).cycles <= 341 && old(self).sprites_count <= 8 && old(self).screen_in_range()
                ==> final(self).wf(),
    {
        if self.cycles >= CYCLES_TO_DRAW_SCANLINE {
            self.cycles = 0;
            if self.scanlines >= LAST_SCANLINE {
                self.scanlines = -1;
                self.completed_frame = true;
                self.odd_frame = !self.odd_frame;
            } else {
                self.scanlines += 1;
            }
        }
    }

    fn background_stage(&mut self, cart: &Cartridge)
        requires
            old(self).wf(),
            cart@.wf(),
        ensures
            *final(self) == old(self).spec_background_stage(cart@),
            final(self).wf(),
            final(self).scanlines == old(self).scanlines,
    {
        if self.scanlines == 0 && self.cycles == 0 && self.mask_register.is_render_enabled() {
            self.cycles = 1;
        }
        if self.scanlines == -1 && self.cycles == 1 {
            self.new_frame_reset();
        }
        if (self.cycles >= 2 && self.cycles <= 257) || (self.cycles >= 321 && self.cycles <= 337) {
            self.update_sprite_shifters();
            self.load_background_info(cart);
        }
        if self.cycles == VISIBLE_SCANLINE_CYCLES {
            self.increment_scroll_y();
        }
        if self.cycles == VISIBLE_SCANLINE_CYCLES + 1 {
            self.load_background_shifters();
            self.transfer_x_address();
        }
    }

    fn sprite_stage(&mut self, cart: &Cartridge)
        requires
            old(self).wf(),
            cart@.wf(),
        ensures
            *final(self) == old(self).spec_sprite_stage(cart@),
            final(self).wf(),
            final(self).scanlines == old(self).scanlines,
            final(self).cycles == old(self).cycles,
    {
        self.evaluate_sprites();
        if self.cycles == 338 || self.cycles == 340 {
            self.next_background_tile_id = self.read_from_internal_memory(
                cart,
                self.address_register.vram_address(),
            );
        }
        self.prepare_sprite_shifters(cart);
        if self.scanlines == -1 && self.cycles >= 280 && self.cycles < 305 {
            self.transfer_y_address();
        }
    }

    fn advance_dot(&mut self)
        requires
            old(self).wf(),
        ensures
            *final(self) == old(self).spec_advance_dot(),
            final(self).wf(),
    {
        self.cycles += 1;
        self.total_cycles = self.total_cycles.wrapping_add(1);
        self.increment_scanline();
    }

    fn render_line_step(&mut self, cart: &Cartridge)
        requires
            old(self).wf(),
            cart@.wf(),
        ensures
            *final(self) == old(self).spec_render_line_step(cart@),
            final(self).wf(),
            final(self).scanlines == old(self).scanlines,
    {
        self.background_stage(cart);
        self.sprite_stage(cart);
    }

    fn pixel_step(&mut self, cart: &Cartridge)
        requires
            old(self).wf(),
            cart@.wf(),
        ensures
            *final(self) == old(self).spec_pixel_step(cart@),
            final(self).wf(),
            final(self).mask_register == old(self).mask_register,
    {
        let (background_pixel, background_pixel_palette) = self.get_background_pixel_info();
        let (foreground_pixel, foreground_pixel_palette, foreground_priority) =
            self.get_sprite_pixel_info();
        let (pixel, palette) = self.evaluate_pixel(
            background_pixel,
            background_pixel_palette,
            foreground_pixel,
            foreground_pixel_palette,
            foreground_priority,
        );
        if self.scanlines >= 0 && (self.scanlines as usize) < SCREEN_HEIGHT {
            if self.cycles > 0 && self.cycles <= SCREEN_WIDTH {
                self.draw_pixel(cart, self.cycles - 1, self.scanlines as usize, pixel, palette);
            }
        }
    }

    /// Advances the picture unit by one dot.
    pub fn tick(&mut self, cart: &mut Cartridge)
        requires
            old(self).wf(),
            old(cart)@.wf(),
        ensures
            *final(self) == old(self).spec_tick(old(cart)@),
            final(cart)@ == old(self).spec_notify_cartridge(old(cart)@),
            final(self).wf(),
            final(cart)@.wf(),
            old(self).strictly_precedes(*final(self)),
    {
        proof {
            lemma_tick_walk(*old(self), old(cart)@);
        }
        if self.scanlines >= -1 && self.scanlines < SCANLINES_PER_FRAME - 1 {
            self.render_line_step(cart);
        }
        self.check_nmi_interrupt();
        self.pixel_step(cart);
        self.notify_cartridge(cart);
        self.advance_dot();
    }
}

/// 1 where the byte has bit `bit`, else 0.
pub open spec fn bit_of(byte: u8, bit: u8) -> u8 {
    (byte >> bit) & 1
}

fn bit_of_exec(byte: u8, bit: u8) -> (r: u8)
    requires
        bit < 8,
    ensures
        r == bit_of(byte, bit),
        r <= 1,
{
    let r = (byte >> bit) & 1;
    assert((byte >> bit) & 1 <= 1) by (bit_vector);
    r
}

impl PPU {
    /// The palette index that the picture of pattern table `table` shows
    /// at column `x` of line `y`: the tile's two planes give the pattern
    /// number, leftmost dot from bit 7, and the first palette gives the
    /// colour.
    pub open spec fn spec_pattern_table_pixel(
        self,
        cart: CartridgeView,
        table: int,
        x: int,
        y: int,
    ) -> u8 {
        let row_address = table * 0x1000 + (y / 8) * 256 + (x / 8) * 16 + y % 8;
        let low = self.spec_read_u8(cart, row_address as u16);
        let high = self.spec_read_u8(cart, (row_address + 8) as u16);
        let bit = (7 - x % 8) as u8;
        self.spec_read_u8(
            cart,
            (PALETTE_MEMORY_START + bit_of(high, bit) * 2 + bit_of(low, bit)) as u16,
        )
    }

    /// The palette index of one dot of the picture of a pattern table.
    pub fn pattern_table_pixel(&self, cart: &Cartridge, table: usize, x: usize, y: usize) -> (color:
        u8)
        requires
            cart@.wf(),
            table < 2,
            x < PATTERN_TABLE_WIDTH,
            y < PATTERN_TABLE_WIDTH,
        ensures
            color == self.spec_pattern_table_pixel(cart@, table as int, x as int, y as int),
    {
        let row_address = table * 0x1000 + (y / 8) * 256 + (x / 8) * 16 + y % 8;
        let low = self.read_u8(cart, row_address as u16);
        let high = self.read_u8(cart, (row_address + 8) as u16);
        let bit = (7 - x % 8) as u8;
        let pixel = bit_of_exec(high, bit) * 2 + bit_of_exec(low, bit);
        self.read_u8(cart, PALETTE_MEMORY_START + pixel as u16)
    }

    /// Draws the two pattern tables into `debug_pattern_tables`, one
    /// after the other, each line after line.
    pub fn draw_pattern_tables(&mut self, cart: &Cartridge)
        requires
            cart@.wf(),
        ensures
            *final(self) == (PPU {
                debug_pattern_tables: final(self).debug_pattern_tables,
                ..*old(self)
            }),
            forall|i: int|
                0 <= i < PATTERN_TABLES_SIZE ==> #[trigger] final(self).debug_pattern_tables[i]
                    == old(self).spec_pattern_table_pixel(
                    cart@,
                    i / 16384,
                    i % 128,
                    (i / 128) % 128,
                ),
    {
        let ghost start = *self;
        let mut i: usize = 0;
        while i < PATTERN_TABLES_SIZE
            invariant
                i <= PATTERN_TABLES_SIZE,
                cart@.wf(),
                *self == (PPU { debug_pattern_tables: self.debug_pattern_tables, ..start }),
                forall|j: int|
                    0 <= j < i ==> #[trigger] self.debug_pattern_tables[j]
                        == start.spec_pattern_table_pixel(
                        cart@,
                        j / 16384,
                        j % 128,
                        (j / 128) % 128,
                    ),
            decreases PATTERN_TABLES_SIZE - i,
        {
            let color = self.pattern_table_pixel(
                cart,
                i / PATTERN_TABLE_SIZE,
                i % PATTERN_TABLE_WIDTH,
                (i / PATTERN_TABLE_WIDTH) % PATTERN_TABLE_WIDTH,
            );
            self.debug_pattern_tables[i] = color;
            i += 1;
        }
    }
}

} // verus!
