//! The cartridge: the parsed ROM image, its two memories and its mapper.

use vstd::prelude::*;
use crate::mappers::{
    new_mapper_by_type, spec_new_mapper_by_type, CartridgeMapper, Mapper, MapperType,
    CHR_BANK_SIZE, PRG_BANK_SIZE,
};

verus! {

pub const HEADER_SIZE: usize = 16;

pub const TRAINER_SIZE: usize = 512;

/// The low nibble of the header's first flag byte.
#[derive(Clone, Copy, Debug, PartialEq, Eq, Hash, Structural)]
pub struct CartridgeMapperFlags {
    pub bits: u8,
}

impl CartridgeMapperFlags {
    pub const MIRRORING: u8 = 0b0001;
    pub const BATTERY: u8 = 0b0010;
    pub const TRAINER: u8 = 0b0100;
    pub const FOUR_SCREEN: u8 = 0b1000;

    /// The flags as a byte.
    #[verifier::allow_in_spec]
    pub fn bits(&self) -> u8
        returns
            self.bits,
    {
        self.bits
    }

    /// Whether every bit of `flag` is set.
    #[verifier::allow_in_spec]
    pub fn contains(&self, flag: u8) -> bool
        returns
            self.bits & flag == flag,
    {
        self.bits & flag == flag
    }
}

/// How the two physical name tables fill the four logical ones.
#[derive(Debug, Clone, Copy, PartialEq, Eq, Hash, Structural)]
pub enum Mirroring {
    Horizontal,
    Vertical,
    OneScreenLow,
    OneScreenHigh,
    FourScreen,
}

/// The 16-byte header of a ROM image, decoded.
#[derive(Debug, Clone, Copy)]
pub struct Header {
    pub name: [u8; 4],
    pub prg_banks_count: u8,
    pub chr_banks_count: u8,
    pub mapper_flags: CartridgeMapperFlags,
    pub prg_ram_size: u8,
    pub mapper_id: u8,
    pub mirroring: Mirroring,
}

/// Why a ROM image was not accepted.
#[derive(Debug, Clone, Copy, PartialEq, Eq, Structural)]
pub enum RomParseError {
    /// The image does not start with `N`, `E`, `S`, `0x1A`.
    BadMagic,
    /// The image ends before the header, the trainer or the banks do.
    ShortBuffer,
    /// The header carries the marker of the later header format.
    Nes2Format,
    /// The header names a mapper other than NROM and UxROM.
    UnsupportedMapper(u8),
    /// The header asks for UxROM and has no program bank to fix at $C000.
    NoProgramBanks,
    /// The header asks for four name tables, which the picture unit has no
    /// memory for. A cartridge can still be built from such an image; a
    /// machine cannot.
    UnsupportedMirroring,
}

/// The mirroring that the first flag byte asks for: the four-screen bit
/// wins; without it the mirroring bit chooses vertical over horizontal.
pub open spec fn spec_mirroring(flags: CartridgeMapperFlags) -> Mirroring {
    if flags.contains(CartridgeMapperFlags::FOUR_SCREEN) {
        Mirroring::FourScreen
    } else if flags.contains(CartridgeMapperFlags::MIRRORING) {
        Mirroring::Vertical
    } else {
        Mirroring::Horizontal
    }
}

/// Whether bits 2 and 3 of the second flag byte hold the binary value 10.
pub open spec fn spec_has_nes2_marker(flags2: u8) -> bool {
    (flags2 / 4) % 4 == 2
}

/// The header of an image, or the first reason it cannot be read. Checks
/// come in the order of the bytes they need.
pub open spec fn spec_read_header(data: Seq<u8>) -> Result<Header, RomParseError> {
    if data.len() < 4 {
        Err(RomParseError::ShortBuffer)
    } else if !(data[0] == 0x4E && data[1] == 0x45 && data[2] == 0x53 && data[3] == 0x1A) {
        Err(RomParseError::BadMagic)
    } else if data.len() < 8 {
        Err(RomParseError::ShortBuffer)
    } else if spec_has_nes2_marker(data[7]) {
        Err(RomParseError::Nes2Format)
    } else if data.len() < HEADER_SIZE {
        Err(RomParseError::ShortBuffer)
    } else {
        let flags = CartridgeMapperFlags { bits: data[6] % 16 };
        if flags.contains(CartridgeMapperFlags::TRAINER) && data.len() < HEADER_SIZE
            + TRAINER_SIZE {
            Err(RomParseError::ShortBuffer)
        } else {
            Ok(
                Header {
                    name: [data[0], data[1], data[2], data[3]],
                    prg_banks_count: data[4],
                    chr_banks_count: data[5],
                    mapper_flags: flags,
                    prg_ram_size: data[8],
                    mapper_id: ((data[7] / 16) * 16 + data[6] / 16) as u8,
                    mirroring: spec_mirroring(flags),
                },
            )
        }
    }
}

/// Where the program banks start in the image: after the header, and after
/// the trainer where there is one.
pub open spec fn spec_data_start(header: Header) -> int {
    if header.mapper_flags.contains(CartridgeMapperFlags::TRAINER) {
        HEADER_SIZE + TRAINER_SIZE
    } else {
        HEADER_SIZE as int
    }
}

/// The bytes that the program banks take.
pub open spec fn spec_prg_size(header: Header) -> int {
    header.prg_banks_count as int * PRG_BANK_SIZE
}

/// The bytes that the character banks take.
pub open spec fn spec_chr_size(header: Header) -> int {
    header.chr_banks_count as int * CHR_BANK_SIZE
}

/// What a cartridge is, as plain values.
pub struct CartridgeView {
    pub header: Header,
    pub prg_memory: Seq<u8>,
    pub chr_memory: Seq<u8>,
    pub mapper_type: MapperType,
    pub prg_banks_count: u8,
    pub chr_banks_count: u8,
    pub mapper: CartridgeMapper,
    pub mirroring: Mirroring,
}

/// The cartridge that an image holds, or the first reason it holds none.
///
/// After the header's own checks the image must be long enough for all
/// banks, then the mapper must be known, then UxROM must have a bank.
/// Program memory is the banks' bytes. Character memory is the character
/// banks' bytes, or 8 KiB of zeros where the header has no character bank.
pub open spec fn spec_parse(data: Seq<u8>) -> Result<CartridgeView, RomParseError> {
    match spec_read_header(data) {
        Err(e) => Err(e),
        Ok(header) => {
            let start = spec_data_start(header);
            let chr_start = start + spec_prg_size(header);
            let end = chr_start + spec_chr_size(header);
            if data.len() < end {
                Err(RomParseError::ShortBuffer)
            } else {
                match MapperType::from_id(header.mapper_id) {
                    None => Err(RomParseError::UnsupportedMapper(header.mapper_id)),
                    Some(mapper_type) => {
                        if mapper_type is UxRom && header.prg_banks_count == 0 {
                            Err(RomParseError::NoProgramBanks)
                        } else {
                            Ok(
                                CartridgeView {
                                    header,
                                    prg_memory: data.subrange(start, chr_start),
                                    chr_memory: if header.chr_banks_count == 0 {
                                        Seq::new(CHR_BANK_SIZE as nat, |i: int| 0u8)
                                    } else {
                                        data.subrange(chr_start, end)
                                    },
                                    mapper_type,
                                    prg_banks_count: header.prg_banks_count,
                                    chr_banks_count: header.chr_banks_count,
                                    mapper: spec_new_mapper_by_type(mapper_type, header),
                                    mirroring: header.mirroring,
                                },
                            )
                        }
                    },
                }
            }
        },
    }
}

impl CartridgeView {
    /// The byte that the processor reads at `index`: the byte of program
    /// memory at the mapped offset, or 0 where the offset lies beyond it.
    pub open spec fn cpu_read_u8(self, index: usize) -> u8 {
        let mapped = self.mapper.spec_map_cpu_read(index);
        if mapped < self.prg_memory.len() {
            self.prg_memory[mapped as int]
        } else {
            0
        }
    }

    /// The cartridge after a processor write: only the mapper may change.
    pub open spec fn cpu_write_u8(self, index: usize, value: u8) -> CartridgeView {
        CartridgeView { mapper: self.mapper.spec_map_cpu_write(index, value), ..self }
    }

    /// The byte that the picture unit reads at `index`: the byte of
    /// character memory at the mapped offset, or 0 where the offset lies
    /// beyond it.
    pub open spec fn ppu_read_u8(self, index: usize) -> u8 {
        let mapped = self.mapper.spec_map_ppu_read(index);
        if mapped < self.chr_memory.len() {
            self.chr_memory[mapped as int]
        } else {
            0
        }
    }

    /// The cartridge after a picture-unit write: the byte at the mapped
    /// offset changes where character memory is RAM and the offset lies in
    /// it; else nothing does.
    pub open spec fn ppu_write_u8(self, index: usize, value: u8) -> CartridgeView {
        let mapped = self.mapper.spec_map_ppu_read(index);
        if self.mapper.spec_has_ram() && mapped < self.chr_memory.len() {
            CartridgeView { chr_memory: self.chr_memory.update(mapped as int, value), ..self }
        } else {
            self
        }
    }

    /// The cartridge after the picture unit's scanline notice.
    pub open spec fn scanline(self) -> CartridgeView {
        CartridgeView { mapper: self.mapper.spec_scanline(), ..self }
    }

    /// The name-table arrangements this core renders with.
    pub open spec fn wf(self) -> bool {
        self.mirroring is Horizontal || self.mirroring is Vertical
    }
}

/// A cartridge: header, program memory, character memory and mapper.
pub struct Cartridge {
    pub header: Header,
    pub prg_memory: Vec<u8>,
    pub chr_memory: Vec<u8>,
    pub mapper_type: MapperType,
    pub prg_banks_count: u8,
    pub chr_banks_count: u8,
    pub mapper: CartridgeMapper,
    pub mirroring: Mirroring,
}

impl View for Cartridge {
    type V = CartridgeView;

    open spec fn view(&self) -> CartridgeView {
        CartridgeView {
            header: self.header,
            prg_memory: self.prg_memory@,
            chr_memory: self.chr_memory@,
            mapper_type: self.mapper_type,
            prg_banks_count: self.prg_banks_count,
            chr_banks_count: self.chr_banks_count,
            mapper: self.mapper,
            mirroring: self.mirroring,
        }
    }
}

/// The bytes of `data` from `start`, `len` of them.
fn copy_range(data: &[u8], start: usize, len: usize) -> (out: Vec<u8>)
    requires
        start + len <= data@.len(),
    ensures
        out@ == data@.subrange(start as int, start + len),
{
    let total = data.len();
    let mut out: Vec<u8> = Vec::new();
    let mut i: usize = 0;
    while i < len
        invariant
            i <= len,
            start + len <= total,
            total == data@.len(),
            out@ == data@.subrange(start as int, start + i),
        decreases len - i,
    {
        out.push(data[start + i]);
        i += 1;
    }
    out
}

/// `len` zero bytes.
fn zeros(len: usize) -> (out: Vec<u8>)
    ensures
        out@ == Seq::new(len as nat, |i: int| 0u8),
{
    let mut out: Vec<u8> = Vec::new();
    let mut i: usize = 0;
    while i < len
        invariant
            i <= len,
            out@ == Seq::new(i as nat, |i: int| 0u8),
        decreases len - i,
    {
        out.push(0);
        i += 1;
    }
    out
}

impl Cartridge {
    /// Decodes the header of a ROM image and says where the banks start.
    pub fn read_header(data: &[u8]) -> (r: Result<(Header, usize), RomParseError>)
        ensures
            match r {
                Ok((header, start)) => spec_read_header(data@) == Ok::<Header, RomParseError>(
                    header,
                ) && start == spec_data_start(header),
                Err(e) => spec_read_header(data@) == Err::<Header, RomParseError>(e),
            },
    {
        if data.len() < 4 {
            return Err(RomParseError::ShortBuffer);
        }
        if !(data[0] == 0x4E && data[1] == 0x45 && data[2] == 0x53 && data[3] == 0x1A) {
            return Err(RomParseError::BadMagic);
        }
        if data.len() < 8 {
            return Err(RomParseError::ShortBuffer);
        }
        let mapper_flags_byte = data[6];
        let mapper_flags_2_byte = data[7];
        if (mapper_flags_2_byte / 4) % 4 == 2 {
            return Err(RomParseError::Nes2Format);
        }
        if data.len() < HEADER_SIZE {
            return Err(RomParseError::ShortBuffer);
        }
        let flags = CartridgeMapperFlags { bits: mapper_flags_byte % 16 };
        let has_trainer = flags.contains(CartridgeMapperFlags::TRAINER);
        if has_trainer && data.len() < HEADER_SIZE + TRAINER_SIZE {
            return Err(RomParseError::ShortBuffer);
        }
        let mirroring = if flags.contains(CartridgeMapperFlags::FOUR_SCREEN) {
            Mirroring::FourScreen
        } else if flags.contains(CartridgeMapperFlags::MIRRORING) {
            Mirroring::Vertical
        } else {
            Mirroring::Horizontal
        };
        let header = Header {
            name: [data[0], data[1], data[2], data[3]],
            prg_banks_count: data[4],
            chr_banks_count: data[5],
            mapper_flags: flags,
            prg_ram_size: data[8],
            mapper_id: (mapper_flags_2_byte / 16) * 16 + mapper_flags_byte / 16,
            mirroring,
        };
        let start = if has_trainer {
            HEADER_SIZE + TRAINER_SIZE
        } else {
            HEADER_SIZE
        };
        Ok((header, start))
    }

    /// Copies the program and character banks out of a ROM image whose
    /// header was decoded; fails where the image ends before they do.
    pub fn read_rom_data(data: &[u8], header: &Header, start: usize) -> (r: Result<
        (Vec<u8>, Vec<u8>),
        RomParseError,
    >)
        requires
            start == spec_data_start(*header),
        ensures
            match r {
                Ok((prg, chr)) => {
                    &&& start + spec_prg_size(*header) + spec_chr_size(*header) <= data@.len()
                    &&& prg@ == data@.subrange(start as int, start + spec_prg_size(*header))
                    &&& chr@ == data@.subrange(
                        start + spec_prg_size(*header),
                        start + spec_prg_size(*header) + spec_chr_size(*header),
                    )
                },
                Err(e) => e == RomParseError::ShortBuffer && data@.len() < start
                    + spec_prg_size(*header) + spec_chr_size(*header),
            },
    {
        let prg_size = header.prg_banks_count as usize * PRG_BANK_SIZE;
        let chr_size = header.chr_banks_count as usize * CHR_BANK_SIZE;
        if data.len() < start + prg_size + chr_size {
            return Err(RomParseError::ShortBuffer);
        }
        let prg = copy_range(data, start, prg_size);
        let chr = copy_range(data, start + prg_size, chr_size);
        Ok((prg, chr))
    }

    /// Builds the cartridge that a ROM image holds.
    pub fn new(data: &[u8]) -> (r: Result<Cartridge, RomParseError>)
        ensures
            match r {
                Ok(cartridge) => spec_parse(data@) == Ok::<CartridgeView, RomParseError>(
                    cartridge@,
                ),
                Err(e) => spec_parse(data@) == Err::<CartridgeView, RomParseError>(e),
            },
    {
        let (header, start) = match Self::read_header(data) {
            Ok(parsed) => parsed,
            Err(e) => {
                return Err(e);
            },
        };
        let (prg_rom, chr_rom) = match Self::read_rom_data(data, &header, start) {
            Ok(banks) => banks,
            Err(e) => {
                return Err(e);
            },
        };
        let mapper_type = match MapperType::from_id(header.mapper_id) {
            Some(mapper_type) => mapper_type,
            None => {
                return Err(RomParseError::UnsupportedMapper(header.mapper_id));
            },
        };
        if header.prg_banks_count == 0 {
            match mapper_type {
                MapperType::UxRom => {
                    return Err(RomParseError::NoProgramBanks);
                },
                MapperType::NROM => {},
            }
        }
        let chr_memory = if header.chr_banks_count == 0 {
            zeros(CHR_BANK_SIZE)
        } else {
            chr_rom
        };
        let mapper = new_mapper_by_type(mapper_type, header);
        Ok(
            Cartridge {
                header,
                prg_memory: prg_rom,
                chr_memory,
                mapper_type,
                prg_banks_count: header.prg_banks_count,
                chr_banks_count: header.chr_banks_count,
                mapper,
                mirroring: header.mirroring,
            },
        )
    }

    /// The byte that the processor reads at `index`: the byte of program
    /// memory at the mapped offset, or 0 where the offset lies beyond it.
    /// Tests whether the cartridge asks for an arrangement of name tables
    /// that the picture unit renders with.
    pub fn is_well_formed(&self) -> (ok: bool)
        ensures
            ok == self@.wf(),
    {
        match self.mirroring {
            Mirroring::Horizontal | Mirroring::Vertical => true,
            _ => false,
        }
    }

    pub fn cpu_read_u8(&self, index: usize) -> (value: u8)
        ensures
            value == self@.cpu_read_u8(index),
    {
        let mapped_index = self.mapper.map_cpu_read(index);
        if mapped_index < self.prg_memory.len() {
            self.prg_memory[mapped_index]
        } else {
            0
        }
    }

    /// The cartridge after a processor write: only the mapper may change.
    pub fn cpu_write_u8(&mut self, index: usize, value: u8)
        ensures
            final(self)@ == old(self)@.cpu_write_u8(index, value),
    {
        let _ = self.mapper.map_cpu_write(index, value);
    }

    /// The byte that the picture unit reads at `index`: the byte of
    /// character memory at the mapped offset, or 0 where the offset lies
    /// beyond it.
    pub fn ppu_read_u8(&self, index: usize) -> (value: u8)
        ensures
            value == self@.ppu_read_u8(index),
    {
        let mapped_index = self.mapper.map_ppu_read(index);
        if mapped_index < self.chr_memory.len() {
            self.chr_memory[mapped_index]
        } else {
            0
        }
    }

    /// The cartridge after a picture-unit write: the byte at the mapped
    /// offset changes where character memory is RAM and the offset lies in
    /// it; else nothing does.
    pub fn ppu_write_u8(&mut self, index: usize, value: u8)
        ensures
            final(self)@ == old(self)@.ppu_write_u8(index, value),
    {
        let mapped_index = self.mapper.map_ppu_write(index, value);
        if self.mapper.has_ram() && mapped_index < self.chr_memory.len() {
            self.chr_memory[mapped_index] = value;
        }
    }

    /// Passes the picture unit's scanline notice on to the mapper.
    pub fn scanline(&mut self)
        ensures
            final(self)@ == old(self)@.scanline(),
    {
        self.mapper.scanline();
    }
}

/// What every cartridge built from an image has: program memory of 16 KiB
/// for each program bank, character memory of 8 KiB for each character
/// bank, or 8 KiB of RAM where there is none, and the header's bank counts,
/// mapper and mirroring.
pub proof fn lemma_parsed_sizes(data: Seq<u8>)
    ensures
        spec_parse(data) matches Ok(cartridge) ==> {
            &&& cartridge.prg_memory.len() == cartridge.prg_banks_count * PRG_BANK_SIZE
            &&& cartridge.chr_memory.len() == if cartridge.chr_banks_count == 0 {
                CHR_BANK_SIZE as int
            } else {
                cartridge.chr_banks_count * CHR_BANK_SIZE
            }
            &&& cartridge.prg_banks_count == cartridge.header.prg_banks_count
            &&& cartridge.chr_banks_count == cartridge.header.chr_banks_count
            &&& cartridge.mirroring == cartridge.header.mirroring
            &&& cartridge.mapper_type.id() == cartridge.header.mapper_id
            &&& cartridge.mapper == spec_new_mapper_by_type(
                cartridge.mapper_type,
                cartridge.header,
            )
            &&& Ok::<Header, RomParseError>(cartridge.header) == spec_read_header(data)
        },
{
}

/// On an NROM cartridge with program banks every processor read lands in
/// program memory: addresses repeat through it, so with one bank $8000 and
/// $C000 read the same byte.
pub proof fn lemma_nrom_reads_wrap(data: Seq<u8>, index: usize)
    ensures
        spec_parse(data) matches Ok(cartridge) ==> cartridge.mapper_type is NROM
            && cartridge.prg_banks_count >= 1 ==> cartridge.cpu_read_u8(index)
            == cartridge.prg_memory[index as int % cartridge.prg_memory.len() as int],
{
    lemma_parsed_sizes(data);
}

} // verus!
