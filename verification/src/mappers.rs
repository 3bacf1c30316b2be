//! Cartridge mappers: how processor and picture-unit addresses become
//! offsets into program and character memory.

use vstd::prelude::*;
use crate::cartridge::Header;

verus! {

pub const PRG_BANK_SIZE: usize = 0x4000;

pub const CHR_BANK_SIZE: usize = 0x2000;

/// The mappers this core knows.
#[derive(Debug, Clone, Copy, PartialEq, Eq, Structural)]
pub enum MapperType {
    NROM,
    UxRom,
}

impl MapperType {
    /// The mapper that a header's mapper number names: 0 is NROM, 2 is
    /// UxROM, and no other number is known.
    #[verifier::allow_in_spec]
    pub fn from_id(value: u8) -> Option<MapperType>
        returns
            (if value == 0 {
                Some(MapperType::NROM)
            } else if value == 2 {
                Some(MapperType::UxRom)
            } else {
                None
            }),
    {
        if value == 0 {
            Some(MapperType::NROM)
        } else if value == 2 {
            Some(MapperType::UxRom)
        } else {
            None
        }
    }

    /// The mapper's number.
    #[verifier::allow_in_spec]
    pub fn id(&self) -> u8
        returns
            (match *self {
                MapperType::NROM => 0u8,
                MapperType::UxRom => 2u8,
            }),
    {
        match *self {
            MapperType::NROM => 0,
            MapperType::UxRom => 2,
        }
    }
}

/// What a cartridge's address logic does.
///
/// The `spec_` functions are the model; each executable method returns or
/// leaves behind exactly what the model says.
pub trait Mapper: Sized {
    /// Offset in program memory that a processor read of `index` reaches.
    spec fn spec_map_cpu_read(&self, index: usize) -> usize;

    /// The mapper after a processor write of `value` to `index`.
    spec fn spec_map_cpu_write(self, index: usize, value: u8) -> Self;

    /// Offset in character memory that a picture-unit access of `index`
    /// reaches, for reads and writes alike.
    spec fn spec_map_ppu_read(&self, index: usize) -> usize;

    /// Whether character memory can be written.
    spec fn spec_has_ram(&self) -> bool;

    /// The mapper after the scanline hook.
    spec fn spec_scanline(self) -> Self;

    fn map_cpu_read(&self, index: usize) -> (offset: usize)
        ensures
            offset == self.spec_map_cpu_read(index),
    ;

    fn map_cpu_write(&mut self, index: usize, value: u8) -> (offset: usize)
        ensures
            offset == index,
            *final(self) == old(self).spec_map_cpu_write(index, value),
    ;

    fn map_ppu_read(&self, index: usize) -> (offset: usize)
        ensures
            offset == self.spec_map_ppu_read(index),
    ;

    fn map_ppu_write(&mut self, index: usize, value: u8) -> (offset: usize)
        ensures
            offset == old(self).spec_map_ppu_read(index),
            *final(self) == *old(self),
    ;

    fn has_ram(&self) -> (r: bool)
        ensures
            r == self.spec_has_ram(),
    ;

    fn scanline(&mut self)
        ensures
            *final(self) == old(self).spec_scanline(),
    ;
}

/// NROM: no bank switching; both memories repeat through their windows.
#[derive(Debug, Clone, Copy, PartialEq, Eq, Structural)]
pub struct NROMMapper {
    pub prg_banks_count: u8,
    pub chr_banks_count: u8,
}

/// The size in bytes of `banks` banks of `bank_size` bytes, or of one bank
/// where there is none.
pub open spec fn span_of(banks: u8, bank_size: usize) -> usize {
    if banks > 1 {
        (bank_size * banks) as usize
    } else {
        bank_size
    }
}

impl NROMMapper {
    /// The mapper for a header's bank counts.
    pub fn new(settings: Header) -> (r: NROMMapper)
        ensures
            r.prg_banks_count == settings.prg_banks_count,
            r.chr_banks_count == settings.chr_banks_count,
    {
        NROMMapper {
            prg_banks_count: settings.prg_banks_count,
            chr_banks_count: settings.chr_banks_count,
        }
    }
}

impl Mapper for NROMMapper {
    /// Program memory repeats every `prg_banks × 16 KiB`.
    open spec fn spec_map_cpu_read(&self, index: usize) -> usize {
        index % span_of(self.prg_banks_count, PRG_BANK_SIZE)
    }

    open spec fn spec_map_cpu_write(self, index: usize, value: u8) -> Self {
        self
    }

    /// Character memory repeats every `chr_banks × 8 KiB`, or every 8 KiB
    /// where the cartridge has no character bank.
    open spec fn spec_map_ppu_read(&self, index: usize) -> usize {
        index % span_of(self.chr_banks_count, CHR_BANK_SIZE)
    }

    open spec fn spec_has_ram(&self) -> bool {
        false
    }

    open spec fn spec_scanline(self) -> Self {
        self
    }

    fn map_cpu_read(&self, index: usize) -> (offset: usize) {
        if self.prg_banks_count > 1 {
            index % (PRG_BANK_SIZE * self.prg_banks_count as usize)
        } else {
            index % PRG_BANK_SIZE
        }
    }

    fn map_cpu_write(&mut self, index: usize, value: u8) -> (offset: usize) {
        index
    }

    fn map_ppu_read(&self, index: usize) -> (offset: usize) {
        if self.chr_banks_count > 1 {
            index % (CHR_BANK_SIZE * self.chr_banks_count as usize)
        } else {
            index % CHR_BANK_SIZE
        }
    }

    fn map_ppu_write(&mut self, index: usize, value: u8) -> (offset: usize) {
        self.map_ppu_read(index)
    }

    fn has_ram(&self) -> (r: bool) {
        false
    }

    fn scanline(&mut self) {
    }
}

/// UxROM: a switchable 16 KiB bank at $8000 and the last bank fixed at
/// $C000; character memory is RAM.
#[derive(Debug, Clone, Copy, PartialEq, Eq, Structural)]
pub struct UxRomMapper {
    pub prg_banks_count: u8,
    pub chr_banks_count: u8,
    pub bank_select_register: u8,
    pub bank_select_count_register: u8,
}

impl UxRomMapper {
    /// Bank 0 is selected at first; the fixed bank is the last one.
    pub fn new(settings: Header) -> (r: UxRomMapper)
        requires
            settings.prg_banks_count >= 1,
        ensures
            r == (UxRomMapper {
                prg_banks_count: settings.prg_banks_count,
                chr_banks_count: settings.chr_banks_count,
                bank_select_register: 0,
                bank_select_count_register: (settings.prg_banks_count - 1) as u8,
            }),
    {
        UxRomMapper {
            prg_banks_count: settings.prg_banks_count,
            chr_banks_count: settings.chr_banks_count,
            bank_select_register: 0,
            bank_select_count_register: settings.prg_banks_count - 1,
        }
    }
}

impl Mapper for UxRomMapper {
    /// $8000–$BFFF reads the selected bank, $C000–$FFFF the last bank, each
    /// at the address's low 14 bits; any other address maps to itself.
    open spec fn spec_map_cpu_read(&self, index: usize) -> usize {
        if 0x8000 <= index <= 0xBFFF {
            (self.bank_select_register as usize * PRG_BANK_SIZE + index % PRG_BANK_SIZE) as usize
        } else if 0xC000 <= index <= 0xFFFF {
            (self.bank_select_count_register as usize * PRG_BANK_SIZE + index % PRG_BANK_SIZE) as usize
        } else {
            index
        }
    }

    /// A write to $8000–$FFFF selects the bank named by the value's low
    /// four bits.
    open spec fn spec_map_cpu_write(self, index: usize, value: u8) -> Self {
        if 0x8000 <= index <= 0xFFFF {
            UxRomMapper { bank_select_register: value % 16, ..self }
        } else {
            self
        }
    }

    open spec fn spec_map_ppu_read(&self, index: usize) -> usize {
        index
    }

    open spec fn spec_has_ram(&self) -> bool {
        true
    }

    open spec fn spec_scanline(self) -> Self {
        self
    }

    fn map_cpu_read(&self, index: usize) -> (offset: usize) {
        if 0x8000 <= index && index <= 0xBFFF {
            self.bank_select_register as usize * PRG_BANK_SIZE + index % PRG_BANK_SIZE
        } else if 0xC000 <= index && index <= 0xFFFF {
            self.bank_select_count_register as usize * PRG_BANK_SIZE + index % PRG_BANK_SIZE
        } else {
            index
        }
    }

    fn map_cpu_write(&mut self, index: usize, value: u8) -> (offset: usize) {
        if 0x8000 <= index && index <= 0xFFFF {
            self.bank_select_register = value % 16;
        }
        index
    }

    fn map_ppu_read(&self, index: usize) -> (offset: usize) {
        index
    }

    fn map_ppu_write(&mut self, index: usize, value: u8) -> (offset: usize) {
        index
    }

    fn has_ram(&self) -> (r: bool) {
        true
    }

    fn scanline(&mut self) {
    }
}

/// A cartridge's mapper: one of the known kinds.
#[derive(Debug, Clone, Copy, PartialEq, Eq, Structural)]
pub enum CartridgeMapper {
    Nrom(NROMMapper),
    UxRom(UxRomMapper),
}

impl Mapper for CartridgeMapper {
    open spec fn spec_map_cpu_read(&self, index: usize) -> usize {
        match *self {
            CartridgeMapper::Nrom(m) => m.spec_map_cpu_read(index),
            CartridgeMapper::UxRom(m) => m.spec_map_cpu_read(index),
        }
    }

    open spec fn spec_map_cpu_write(self, index: usize, value: u8) -> Self {
        match self {
            CartridgeMapper::Nrom(m) => CartridgeMapper::Nrom(m.spec_map_cpu_write(index, value)),
            CartridgeMapper::UxRom(m) => CartridgeMapper::UxRom(
                m.spec_map_cpu_write(index, value),
            ),
        }
    }

    open spec fn spec_map_ppu_read(&self, index: usize) -> usize {
        match *self {
            CartridgeMapper::Nrom(m) => m.spec_map_ppu_read(index),
            CartridgeMapper::UxRom(m) => m.spec_map_ppu_read(index),
        }
    }

    open spec fn spec_has_ram(&self) -> bool {
        match *self {
            CartridgeMapper::Nrom(m) => m.spec_has_ram(),
            CartridgeMapper::UxRom(m) => m.spec_has_ram(),
        }
    }

    open spec fn spec_scanline(self) -> Self {
        match self {
            CartridgeMapper::Nrom(m) => CartridgeMapper::Nrom(m.spec_scanline()),
            CartridgeMapper::UxRom(m) => CartridgeMapper::UxRom(m.spec_scanline()),
        }
    }

    fn map_cpu_read(&self, index: usize) -> (offset: usize) {
        match self {
            CartridgeMapper::Nrom(m) => m.map_cpu_read(index),
            CartridgeMapper::UxRom(m) => m.map_cpu_read(index),
        }
    }

    fn map_cpu_write(&mut self, index: usize, value: u8) -> (offset: usize) {
        match self {
            CartridgeMapper::Nrom(m) => m.map_cpu_write(index, value),
            CartridgeMapper::UxRom(m) => m.map_cpu_write(index, value),
        }
    }

    fn map_ppu_read(&self, index: usize) -> (offset: usize) {
        match self {
            CartridgeMapper::Nrom(m) => m.map_ppu_read(index),
            CartridgeMapper::UxRom(m) => m.map_ppu_read(index),
        }
    }

    fn map_ppu_write(&mut self, index: usize, value: u8) -> (offset: usize) {
        match self {
            CartridgeMapper::Nrom(m) => m.map_ppu_write(index, value),
            CartridgeMapper::UxRom(m) => m.map_ppu_write(index, value),
        }
    }

    fn has_ram(&self) -> (r: bool) {
        match self {
            CartridgeMapper::Nrom(m) => m.has_ram(),
            CartridgeMapper::UxRom(m) => m.has_ram(),
        }
    }

    fn scanline(&mut self) {
        match self {
            CartridgeMapper::Nrom(m) => m.scanline(),
            CartridgeMapper::UxRom(m) => m.scanline(),
        }
    }
}

/// The mapper of the given kind, set up from the header's bank counts.
pub open spec fn spec_new_mapper_by_type(mapper_type: MapperType, settings: Header) -> CartridgeMapper {
    match mapper_type {
        MapperType::NROM => CartridgeMapper::Nrom(
            NROMMapper {
                prg_banks_count: settings.prg_banks_count,
                chr_banks_count: settings.chr_banks_count,
            },
        ),
        MapperType::UxRom => CartridgeMapper::UxRom(
            UxRomMapper {
                prg_banks_count: settings.prg_banks_count,
                chr_banks_count: settings.chr_banks_count,
                bank_select_register: 0,
                bank_select_count_register: (settings.prg_banks_count - 1) as u8,
            },
        ),
    }
}

/// The mapper of the given kind, set up from the header's bank counts.
pub fn new_mapper_by_type(mapper_type: MapperType, settings: Header) -> (r: CartridgeMapper)
    requires
        mapper_type is UxRom ==> settings.prg_banks_count >= 1,
    ensures
        r == spec_new_mapper_by_type(mapper_type, settings),
{
    match mapper_type {
        MapperType::NROM => CartridgeMapper::Nrom(NROMMapper::new(settings)),
        MapperType::UxRom => CartridgeMapper::UxRom(UxRomMapper::new(settings)),
    }
}

} // verus!
