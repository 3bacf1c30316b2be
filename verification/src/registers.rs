//! The picture unit's register images: control, mask, status, and the packed
//! 15-bit scroll/address register.

use vstd::prelude::*;

verus! {

pub const OPEN_BUS_REGISTER_MASK: u8 = 0x1F;

pub const VRAM_ADDRESS_INC: u16 = 1;

pub const VRAM_ADDRESS_INC_VERTICAL_MODE: u16 = 32;

/// The control register image; every one of its eight bits has a meaning.
#[derive(Clone, Copy, Debug, PartialEq, Eq, Hash, Structural)]
pub struct Controller {
    pub bits: u8,
}

impl Controller {
    pub const NAMETABLE_X: u8 = 0b0000_0001;
    pub const NAMETABLE_Y: u8 = 0b0000_0010;
    pub const VRAM_ADDRESS_INCREMENT: u8 = 0b0000_0100;
    pub const SPRITE_PATTERN_ADDRESS: u8 = 0b0000_1000;
    pub const BACKROUND_PATTERN_ADDRESS: u8 = 0b0001_0000;
    pub const SPRITE_SIZE: u8 = 0b0010_0000;
    pub const MASTER_SLAVE_SELECT: u8 = 0b0100_0000;
    pub const GENERATE_NMI: u8 = 0b1000_0000;

    /// The image with no bit set.
    pub fn empty() -> (r: Controller)
        ensures
            r.bits == 0,
    {
        Controller { bits: 0 }
    }

    /// All 256 values are valid images.
    pub fn from_bits(bits: u8) -> (r: Controller)
        ensures
            r.bits == bits,
    {
        Controller { bits }
    }

    /// The image as a byte.
    #[verifier::allow_in_spec]
    pub fn bits(&self) -> u8
        returns
            self.bits,
    {
        self.bits
    }

    /// Whether every bit of `flag` is set.
    #[verifier::allow_in_spec]
    pub fn contains(&self, flag: u8) -> bool
        returns
            self.bits & flag == flag,
    {
        self.bits & flag == flag
    }

    /// Sprite height in lines: 16 with `SPRITE_SIZE` set, else 8.
    #[verifier::allow_in_spec]
    pub fn get_sprite_size(&self) -> u8
        returns
            (if self.contains(Controller::SPRITE_SIZE) {
                16u8
            } else {
                8u8
            }),
    {
        if self.contains(Controller::SPRITE_SIZE) {
            16
        } else {
            8
        }
    }
}

/// The mask register image.
#[derive(Clone, Copy, Debug, PartialEq, Eq, Hash, Structural)]
pub struct Mask {
    pub bits: u8,
}

impl Mask {
    pub const GREYSCALE: u8 = 0b0000_0001;
    pub const LEFTMOST_SHOW_BACKGROUND: u8 = 0b0000_0010;
    pub const LEFTMOST_SHOW_SPRITES: u8 = 0b0000_0100;
    pub const SHOW_BACKGROUND: u8 = 0b0000_1000;
    pub const SHOW_SPRITES: u8 = 0b0001_0000;
    pub const EMPHASIZE_RED: u8 = 0b0010_0000;
    pub const EMPHASIZE_GREEN: u8 = 0b0100_0000;
    pub const EMPHASIZE_BLUE: u8 = 0b1000_0000;

    /// The image with no bit set.
    pub fn empty() -> (r: Mask)
        ensures
            r.bits == 0,
    {
        Mask { bits: 0 }
    }

    /// All 256 values are valid images.
    pub fn from_bits(bits: u8) -> (r: Mask)
        ensures
            r.bits == bits,
    {
        Mask { bits }
    }

    /// The image as a byte.
    #[verifier::allow_in_spec]
    pub fn bits(&self) -> u8
        returns
            self.bits,
    {
        self.bits
    }

    /// Whether every bit of `flag` is set.
    #[verifier::allow_in_spec]
    pub fn contains(&self, flag: u8) -> bool
        returns
            self.bits & flag == flag,
    {
        self.bits & flag == flag
    }

    /// Whether the background is shown.
    #[verifier::allow_in_spec]
    pub fn is_background_enabled(&self) -> bool
        returns
            self.contains(Mask::SHOW_BACKGROUND),
    {
        self.contains(Mask::SHOW_BACKGROUND)
    }

    /// Whether sprites are shown.
    #[verifier::allow_in_spec]
    pub fn is_foreground_enabled(&self) -> bool
        returns
            self.contains(Mask::SHOW_SPRITES),
    {
        self.contains(Mask::SHOW_SPRITES)
    }

    /// Rendering is on when the background or the sprites are shown.
    #[verifier::allow_in_spec]
    pub fn is_render_enabled(&self) -> bool
        returns
            self.is_background_enabled() || self.is_foreground_enabled(),
    {
        self.is_background_enabled() || self.is_foreground_enabled()
    }
}

/// The status register image. Only the top three bits are driven by the
/// picture unit; the low five read back whatever was last on the bus.
#[derive(Clone, Copy, Debug, PartialEq, Eq, Hash, Structural)]
pub struct Status {
    pub bits: u8,
}

impl Status {
    pub const OPENBUS0: u8 = 0b0000_0001;
    pub const OPENBUS1: u8 = 0b0000_0010;
    pub const OPENBUS2: u8 = 0b0000_0100;
    pub const OPENBUS3: u8 = 0b0000_1000;
    pub const OPENBUS4: u8 = 0b0001_0000;
    pub const SPRITE_OVERFLOW: u8 = 0b0010_0000;
    pub const SPRITE_ZERO_HIT: u8 = 0b0100_0000;
    pub const VERTICAL_BLANK: u8 = 0b1000_0000;

    /// The image with no bit set.
    pub fn empty() -> (r: Status)
        ensures
            r.bits == 0,
    {
        Status { bits: 0 }
    }

    /// All 256 values are valid images.
    pub fn from_bits(bits: u8) -> (r: Status)
        ensures
            r.bits == bits,
    {
        Status { bits }
    }

    /// The image as a byte.
    #[verifier::allow_in_spec]
    pub fn bits(&self) -> u8
        returns
            self.bits,
    {
        self.bits
    }

    /// Whether every bit of `flag` is set.
    #[verifier::allow_in_spec]
    pub fn contains(&self, flag: u8) -> bool
        returns
            self.bits & flag == flag,
    {
        self.bits & flag == flag
    }

    /// The image with the bits of `flag` set.
    pub open spec fn spec_insert(self, flag: u8) -> Status {
        Status { bits: self.bits | flag }
    }

    /// The image with the bits of `flag` cleared.
    pub open spec fn spec_remove(self, flag: u8) -> Status {
        Status { bits: self.bits & !flag }
    }

    /// The image with the bits of `flag` set or cleared.
    pub open spec fn spec_set(self, flag: u8, on: bool) -> Status {
        if on {
            self.spec_insert(flag)
        } else {
            self.spec_remove(flag)
        }
    }

    /// The byte that a read of the status port reports.
    pub open spec fn spec_read_value(self, open_bus: u8) -> u8 {
        (self.bits & 0xE0) | (open_bus & OPEN_BUS_REGISTER_MASK)
    }

    /// The image after a read of the status port.
    pub open spec fn spec_read(self) -> Status {
        self.spec_remove(Status::VERTICAL_BLANK)
    }

    /// The image at the start of a frame.
    pub open spec fn spec_reset(self) -> Status {
        self.spec_remove(Status::SPRITE_OVERFLOW).spec_remove(Status::SPRITE_ZERO_HIT).spec_remove(
            Status::VERTICAL_BLANK,
        )
    }

    /// Sets the bits of `flag`.
    pub fn insert(&mut self, flag: u8)
        ensures
            *final(self) == old(self).spec_insert(flag),
    {
        self.bits = self.bits | flag;
    }

    /// Clears the bits of `flag`.
    pub fn remove(&mut self, flag: u8)
        ensures
            *final(self) == old(self).spec_remove(flag),
    {
        self.bits = self.bits & !flag;
    }

    /// Sets or clears the bits of `flag`.
    pub fn set(&mut self, flag: u8, on: bool)
        ensures
            *final(self) == old(self).spec_set(flag, on),
    {
        if on {
            self.insert(flag);
        } else {
            self.remove(flag);
        }
    }

    /// Reports the three status bits over the low five bits of `open_bus`,
    /// and clears the vertical-blank flag.
    pub fn read(&mut self, open_bus: u8) -> (result: u8)
        ensures
            result == old(self).spec_read_value(open_bus),
            *final(self) == old(self).spec_read(),
    {
        let result = (self.bits & 0xE0) | (open_bus & OPEN_BUS_REGISTER_MASK);
        self.remove(Status::VERTICAL_BLANK);
        result
    }

    /// Clears sprite overflow, sprite-zero hit and vertical blank.
    pub fn reset(&mut self)
        ensures
            *final(self) == old(self).spec_reset(),
    {
        self.remove(Status::SPRITE_OVERFLOW);
        self.remove(Status::SPRITE_ZERO_HIT);
        self.remove(Status::VERTICAL_BLANK);
    }
}

/// The packed scroll/address register, held as its five components.
///
/// Laid out from the low bit up: coarse X (5 bits), coarse Y (5 bits),
/// name-table X (1 bit), name-table Y (1 bit), fine Y (3 bits). The fields
/// keep whatever byte was stored; every reader takes the low bits that the
/// component has.
#[derive(Clone, Copy, Debug, PartialEq, Eq, Hash, Structural)]
pub struct LoopyRegister {
    pub coarse_x: u8,
    pub coarse_y: u8,
    pub nametable_x: u8,
    pub nametable_y: u8,
    pub fine_y: u8,
}

impl LoopyRegister {
    /// The register with every component zero.
    pub fn new() -> (r: LoopyRegister)
        ensures
            r == (LoopyRegister { coarse_x: 0, coarse_y: 0, nametable_x: 0, nametable_y: 0, fine_y: 0 }),
    {
        LoopyRegister { coarse_x: 0, coarse_y: 0, nametable_x: 0, nametable_y: 0, fine_y: 0 }
    }

    /// The tile column, 0 to 31.
    #[verifier::allow_in_spec]
    pub fn coarse_x(&self) -> u8
        returns
            self.coarse_x % 32,
    {
        self.coarse_x % 32
    }

    /// The tile row, 0 to 31.
    #[verifier::allow_in_spec]
    pub fn coarse_y(&self) -> u8
        returns
            self.coarse_y % 32,
    {
        self.coarse_y % 32
    }

    /// The line within the tile, 0 to 7.
    #[verifier::allow_in_spec]
    pub fn fine_y(&self) -> u8
        returns
            self.fine_y % 8,
    {
        self.fine_y % 8
    }

    /// The 15-bit value that the five components pack into.
    pub open spec fn spec_address(&self) -> u16 {
        (self.fine_y() as int * 4096 + (self.nametable_y % 2) as int * 2048 + (self.nametable_x
            % 2) as int * 1024 + self.coarse_y() as int * 32 + self.coarse_x() as int) as u16
    }

    /// The register whose components are the fields of `value`, bit 15 dropped.
    pub open spec fn spec_set(value: u16) -> LoopyRegister {
        LoopyRegister {
            coarse_x: (value % 32) as u8,
            coarse_y: ((value / 32) % 32) as u8,
            nametable_x: ((value / 1024) % 2) as u8,
            nametable_y: ((value / 2048) % 2) as u8,
            fine_y: ((value / 4096) % 8) as u8,
        }
    }

    /// The register in the horizontally neighbouring name table.
    pub open spec fn spec_flip_nametable_x(self) -> LoopyRegister {
        LoopyRegister { nametable_x: if self.nametable_x == 1 { 0 } else { 1 }, ..self }
    }

    /// The register in the vertically neighbouring name table.
    pub open spec fn spec_flip_nametable_y(self) -> LoopyRegister {
        LoopyRegister { nametable_y: if self.nametable_y == 1 { 0 } else { 1 }, ..self }
    }

    /// One tile to the right; leaving column 31 wraps to column 0 of the
    /// horizontally neighbouring name table.
    pub open spec fn spec_increment_coarse_x(self) -> LoopyRegister {
        if self.coarse_x() == 31 {
            LoopyRegister { coarse_x: 0, ..self }.spec_flip_nametable_x()
        } else {
            LoopyRegister { coarse_x: (self.coarse_x() + 1) as u8, ..self }
        }
    }

    /// One line down. Fine Y counts 0 to 7; its overflow moves coarse Y on,
    /// where row 29 wraps to row 0 of the vertically neighbouring name table
    /// and row 31 wraps to row 0 of the same one.
    pub open spec fn spec_increment_coarse_y(self) -> LoopyRegister {
        if self.fine_y() < 7 {
            LoopyRegister { fine_y: (self.fine_y() + 1) as u8, ..self }
        } else if self.coarse_y() == 29 {
            LoopyRegister { fine_y: 0, coarse_y: 0, ..self }.spec_flip_nametable_y()
        } else if self.coarse_y() == 31 {
            LoopyRegister { fine_y: 0, coarse_y: 0, ..self }
        } else {
            LoopyRegister { fine_y: 0, coarse_y: (self.coarse_y() + 1) as u8, ..self }
        }
    }

    /// The register with the horizontal components of `other`.
    pub open spec fn spec_transfer_x_from(self, other: LoopyRegister) -> LoopyRegister {
        LoopyRegister { nametable_x: other.nametable_x, coarse_x: other.coarse_x, ..self }
    }

    /// The register with the vertical components of `other`.
    pub open spec fn spec_transfer_y_from(self, other: LoopyRegister) -> LoopyRegister {
        LoopyRegister {
            fine_y: other.fine_y,
            nametable_y: other.nametable_y,
            coarse_y: other.coarse_y,
            ..self
        }
    }

    /// The register after one access through the data port: the packed
    /// value moved on by 32 in vertical mode and by 1 otherwise.
    pub open spec fn spec_increment(self, vertical_mode: bool) -> LoopyRegister {
        Self::spec_set(
            (self.spec_address() + if vertical_mode {
                VRAM_ADDRESS_INC_VERTICAL_MODE
            } else {
                VRAM_ADDRESS_INC
            }) as u16,
        )
    }

    pub fn flip_nametable_x(&mut self)
        ensures
            *final(self) == old(self).spec_flip_nametable_x(),
    {
        if self.nametable_x == 1 {
            self.nametable_x = 0;
        } else {
            self.nametable_x = 1;
        }
    }

    pub fn flip_nametable_y(&mut self)
        ensures
            *final(self) == old(self).spec_flip_nametable_y(),
    {
        if self.nametable_y == 1 {
            self.nametable_y = 0;
        } else {
            self.nametable_y = 1;
        }
    }

    /// One tile to the right; leaving column 31 wraps to column 0 of the
    /// horizontally neighbouring name table.
    pub fn increment_coarse_x(&mut self)
        ensures
            *final(self) == old(self).spec_increment_coarse_x(),
    {
        if self.coarse_x() == 31 {
            self.set_coarse_x(0);
            self.flip_nametable_x();
        } else {
            self.set_coarse_x(self.coarse_x() + 1);
        }
    }

    /// One line down. Fine Y counts 0 to 7; its overflow moves coarse Y on,
    /// where row 29 wraps to row 0 of the vertically neighbouring name table
    /// and row 31 wraps to row 0 of the same one.
    pub fn increment_coarse_y(&mut self)
        ensures
            *final(self) == old(self).spec_increment_coarse_y(),
    {
        if self.fine_y() < 7 {
            self.set_fine_y(self.fine_y() + 1);
        } else {
            self.set_fine_y(0);
            if self.coarse_y() == 29 {
                self.set_coarse_y(0);
                self.flip_nametable_y();
            } else if self.coarse_y() == 31 {
                self.set_coarse_y(0);
            } else {
                self.set_coarse_y(self.coarse_y() + 1);
            }
        }
    }

    /// Stores the tile column.
    pub fn set_coarse_x(&mut self, value: u8)
        ensures
            *final(self) == (LoopyRegister { coarse_x: value, ..*old(self) }),
    {
        self.coarse_x = value;
    }

    /// Stores the tile row.
    pub fn set_coarse_y(&mut self, value: u8)
        ensures
            *final(self) == (LoopyRegister { coarse_y: value, ..*old(self) }),
    {
        self.coarse_y = value;
    }

    /// Stores the line within the tile, taken modulo 8.
    pub fn set_fine_y(&mut self, value: u8)
        ensures
            *final(self) == (LoopyRegister { fine_y: value % 8, ..*old(self) }),
    {
        self.fine_y = value % 8;
    }

    /// The 15-bit value that the five components pack into.
    #[verifier::when_used_as_spec(spec_address)]
    pub fn address(&self) -> (r: u16)
        ensures
            r == self.spec_address(),
            r < 0x8000,
    {
        (self.fine_y() as u16) * 4096 + ((self.nametable_y % 2) as u16) * 2048 + ((
        self.nametable_x % 2) as u16) * 1024 + (self.coarse_y() as u16) * 32
            + self.coarse_x() as u16
    }

    /// The packed value without fine Y: the name-table byte's offset.
    #[verifier::allow_in_spec]
    pub fn vram_address(&self) -> u16
        returns
            self.address() % 0x1000,
    {
        self.address() % 0x1000
    }

    /// The offset, from the start of the name tables' attribute area, of the
    /// attribute byte that covers the current tile.
    #[verifier::allow_in_spec]
    pub fn next_tile_attribute_address(&self) -> u16
        returns
            ((self.nametable_y % 2) as u16 * 2048 + (self.nametable_x % 2) as u16 * 1024 + (
            self.coarse_y() / 4) as u16 * 8 + (self.coarse_x() / 4) as u16) as u16,
    {
        ((self.nametable_y % 2) as u16) * 2048 + ((self.nametable_x % 2) as u16) * 1024 + ((
        self.coarse_y() / 4) as u16) * 8 + (self.coarse_x() / 4) as u16
    }

    /// Copies all five components of `other`.
    pub fn transfer_from(&mut self, other: &LoopyRegister)
        ensures
            *final(self) == *other,
    {
        self.coarse_x = other.coarse_x;
        self.coarse_y = other.coarse_y;
        self.nametable_x = other.nametable_x;
        self.nametable_y = other.nametable_y;
        self.fine_y = other.fine_y;
    }

    pub fn transfer_x_from(&mut self, other: &LoopyRegister)
        ensures
            *final(self) == old(self).spec_transfer_x_from(*other),
    {
        self.nametable_x = other.nametable_x;
        self.coarse_x = other.coarse_x;
    }

    pub fn transfer_y_from(&mut self, other: &LoopyRegister)
        ensures
            *final(self) == old(self).spec_transfer_y_from(*other),
    {
        self.fine_y = other.fine_y;
        self.nametable_y = other.nametable_y;
        self.coarse_y = other.coarse_y;
    }

    /// Unpacks `value` into the five components; bit 15 is dropped.
    pub fn set(&mut self, value: u16)
        ensures
            *final(self) == Self::spec_set(value),
    {
        self.coarse_x = (value % 32) as u8;
        self.coarse_y = ((value / 32) % 32) as u8;
        self.nametable_x = ((value / 1024) % 2) as u8;
        self.nametable_y = ((value / 2048) % 2) as u8;
        self.fine_y = ((value / 4096) % 8) as u8;
    }

    /// The register after one access through the data port: the packed
    /// value moved on by 32 in vertical mode and by 1 otherwise.
    pub fn increment(&mut self, vertical_mode: bool)
        ensures
            *final(self) == old(self).spec_increment(vertical_mode),
    {
        let address = self.address();
        let new_address = if vertical_mode {
            address + VRAM_ADDRESS_INC_VERTICAL_MODE
        } else {
            address + VRAM_ADDRESS_INC
        };
        self.set(new_address);
    }
}

/// The five fields of a 16-bit value add up to its low 15 bits.
proof fn lemma_fields_make_value(v: u16)
    by (bit_vector)
    ensures
        ((v / 4096) % 8) * 4096 + ((v / 2048) % 2) * 2048 + ((v / 1024) % 2) * 1024 + ((v / 32)
            % 32) * 32 + v % 32 == v % 0x8000,
        (v / 4096) % 8 < 8,
        (v / 2048) % 2 < 2,
        (v / 1024) % 2 < 2,
        (v / 32) % 32 < 32,
        v % 32 < 32,
{
}

/// Packing what `set` unpacked gives the value back, but for bit 15.
pub proof fn lemma_set_then_address(value: u16)
    ensures
        LoopyRegister::spec_set(value).spec_address() == value % 0x8000,
{
    lemma_fields_make_value(value);
}

/// The packed sum of five in-range fields has those fields.
proof fn lemma_value_has_fields(fy: u16, ny: u16, nx: u16, cy: u16, cx: u16)
    by (bit_vector)
    requires
        fy < 8,
        ny < 2,
        nx < 2,
        cy < 32,
        cx < 32,
    ensures
        ({
            let v = (fy * 4096 + ny * 2048 + nx * 1024 + cy * 32 + cx) as u16;
            &&& fy * 4096 + ny * 2048 + nx * 1024 + cy * 32 + cx < 0x8000
            &&& v % 32 == cx
            &&& (v / 32) % 32 == cy
            &&& (v / 1024) % 2 == nx
            &&& (v / 2048) % 2 == ny
            &&& (v / 4096) % 8 == fy
        }),
{
}

/// Unpacking the packed value gives the register back, component by
/// component as the readers see them.
pub proof fn lemma_address_then_set(r: LoopyRegister)
    ensures
        ({
            let s = LoopyRegister::spec_set(r.spec_address());
            &&& s.coarse_x == r.coarse_x()
            &&& s.coarse_y == r.coarse_y()
            &&& s.nametable_x == r.nametable_x % 2
            &&& s.nametable_y == r.nametable_y % 2
            &&& s.fine_y == r.fine_y()
        }),
{
    lemma_value_has_fields(
        r.fine_y() as u16,
        (r.nametable_y % 2) as u16,
        (r.nametable_x % 2) as u16,
        r.coarse_y() as u16,
        r.coarse_x() as u16,
    );
}

} // verus!
