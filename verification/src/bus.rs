//! The processor's address space: work RAM, the picture unit's ports, the
//! controllers, the cartridge, and the sprite transfer.

use vstd::prelude::*;
use vstd::array::{spec_array_fill_for_copy_type, spec_array_update};
use crate::cartridge::{Cartridge, CartridgeView};
use crate::joypad::{Joypad, JoypadButtons};
use crate::oam::lemma_set_then_get;
use crate::ppu::PPU;
use crate::timing::lemma_run_dots_outside;

verus! {

pub const CPU_MEMORY_SIZE: usize = 0x800;

pub const CPU_RAM_PAGE_END: u16 = 0x1FFF;

pub const PPU_CTRL_ADDRESS: u16 = 0x2000;

pub const PPU_MASK_ADDRESS: u16 = 0x2001;

pub const PPU_STATUS_ADDRESS: u16 = 0x2002;

pub const OAM_ADDRESS: u16 = 0x2003;

pub const OAM_DATA_ADDRESS: u16 = 0x2004;

pub const PPU_SCROLL: u16 = 0x2005;

pub const PPU_ADDRESS: u16 = 0x2006;

pub const PPU_DATA_ADDRESS: u16 = 0x2007;

pub const IO_PAGE_START: u16 = 0x2008;

pub const IO_PAGE_END: u16 = 0x3FFF;

pub const OAM_DMA_ADDRESS: u16 = 0x4014;

pub const JOYPAD_1_IO_ADDRESS: u16 = 0x4016;

pub const JOYPAD_2_IO_ADDRESS: u16 = 0x4017;

pub const CARTRIDGE_PAGE_START: u16 = 0x4020;

/// Everything the processor reaches through its address lines.
pub struct Bus {
    pub cpu_memory: [u8; 2048],
    pub cpu_cycles: u64,
    pub ppu: PPU,
    pub cartridge: Cartridge,
    pub joypads: [Joypad; 2],
}

/// The bus as plain values: the cartridge by its view, the rest as it is.
pub struct BusView {
    pub cpu_memory: [u8; 2048],
    pub cpu_cycles: u64,
    pub ppu: PPU,
    pub cartridge: CartridgeView,
    pub joypads: [Joypad; 2],
}

impl View for Bus {
    type V = BusView;

    open spec fn view(&self) -> BusView {
        BusView {
            cpu_memory: self.cpu_memory,
            cpu_cycles: self.cpu_cycles,
            ppu: self.ppu,
            cartridge: self.cartridge@,
            joypads: self.joypads,
        }
    }
}

/// The address that a port address stands for: $2008–$3FFF repeat the
/// eight ports at $2000–$2007.
pub open spec fn spec_mirror_address(index: u16) -> u16 {
    if IO_PAGE_START <= index <= IO_PAGE_END {
        (PPU_CTRL_ADDRESS + index % 8) as u16
    } else {
        index
    }
}

/// The 16-bit value with the given low and high bytes.
pub open spec fn word(low: u8, high: u8) -> u16 {
    (high as u16 * 256 + low as u16) as u16
}

/// The address after `index`, wrapping at the top of the address space.
pub open spec fn next_address(index: u16) -> u16 {
    ((index + 1) % 0x10000) as u16
}

impl BusView {
    /// Whether the state is one that the machine can be in.
    pub open spec fn wf(self) -> bool {
        self.ppu.wf() && self.cartridge.wf()
    }

    /// The bus at power-on: work RAM zero, no cycle counted, no button
    /// pressed.
    pub open spec fn spec_new(ppu: PPU, cartridge: CartridgeView) -> BusView {
        BusView {
            cpu_memory: spec_array_fill_for_copy_type::<u8, 2048>(0u8),
            cpu_cycles: 0,
            ppu,
            cartridge,
            joypads: spec_array_fill_for_copy_type::<Joypad, 2>(
                Joypad { buttons_pressed: JoypadButtons { bits: 0 }, state: 0 },
            ),
        }
    }

    /// The bus with the interrupt lowered.
    pub open spec fn nmi_handled(self) -> BusView {
        BusView { ppu: PPU { nmi_interrupt: false, ..self.ppu }, ..self }
    }

    /// The byte that a read of `index` reports.
    ///
    /// Work RAM repeats every 2 KiB below $2000. Of the picture unit's
    /// ports only status, OAM data and data can be read; the write-only
    /// ports, the sound unit's range and the unused range read as 0.
    #[verifier::opaque]
    pub open spec fn read_value(self, index: u16) -> u8 {
        let index = spec_mirror_address(index);
        if index <= CPU_RAM_PAGE_END {
            self.cpu_memory[(index % 0x800) as int]
        } else if index == PPU_STATUS_ADDRESS {
            self.ppu.status_register.spec_read_value(self.ppu.data_buffer)
        } else if index == OAM_DATA_ADDRESS {
            self.ppu.spec_read_oam_data_register()
        } else if index == PPU_DATA_ADDRESS {
            self.ppu.spec_read_data_value(self.cartridge)
        } else if index == JOYPAD_1_IO_ADDRESS || index == JOYPAD_2_IO_ADDRESS {
            self.joypads[(index % 2) as int].spec_read_value()
        } else if index >= CARTRIDGE_PAGE_START {
            self.cartridge.cpu_read_u8(index as usize)
        } else {
            0
        }
    }

    /// The bus after a read of `index`: reads of the status port, the data
    /// port and the controllers change what they read from.
    #[verifier::opaque]
    pub open spec fn read(self, index: u16) -> BusView {
        let index = spec_mirror_address(index);
        if index == PPU_STATUS_ADDRESS {
            BusView { ppu: self.ppu.spec_read_status_register(), ..self }
        } else if index == PPU_DATA_ADDRESS {
            BusView { ppu: self.ppu.spec_read_data_register(self.cartridge), ..self }
        } else if index == JOYPAD_1_IO_ADDRESS || index == JOYPAD_2_IO_ADDRESS {
            BusView {
                joypads: spec_array_update(
                    self.joypads,
                    (index % 2) as int,
                    self.joypads[(index % 2) as int].spec_read(),
                ),
                ..self
            }
        } else {
            self
        }
    }

    /// The 16-bit value read at `index`, low byte first, and the bus after
    /// the two reads.
    pub open spec fn read_u16(self, index: u16) -> (BusView, u16) {
        let after_low = self.read(index);
        (
            after_low.read(next_address(index)),
            word(self.read_value(index), after_low.read_value(next_address(index))),
        )
    }

    /// The bus after the picture unit ran `dots` dots.
    pub open spec fn run_dots(self, dots: nat) -> BusView
        decreases dots,
    {
        if dots == 0 {
            self
        } else {
            let before = self.run_dots((dots - 1) as nat);
            BusView {
                ppu: before.ppu.spec_tick(before.cartridge),
                cartridge: before.ppu.spec_notify_cartridge(before.cartridge),
                ..before
            }
        }
    }

    /// The bus after `cycles` processor cycles: the cycle counter moved on,
    /// wrapping at 64 bits, and the picture unit ran three dots for each.
    #[verifier::opaque]
    pub open spec fn tick(self, cycles: u64) -> BusView {
        BusView {
            cpu_cycles: self.cpu_cycles.wrapping_add(cycles),
            ..self.run_dots(3 * cycles as nat)
        }
    }

    /// The bus after the first `count` bytes of a sprite transfer from
    /// page `page`, copied one after another.
    pub open spec fn dma_bytes(self, page: u8, count: nat) -> BusView
        decreases count,
    {
        if count == 0 {
            self
        } else {
            self.dma_bytes(page, (count - 1) as nat).dma_byte(word((count - 1) as u8, page))
        }
    }

    /// The bus after one byte of a sprite transfer: the byte at `source`
    /// is read, a cycle passes, the byte goes through the OAM data port,
    /// and another cycle passes.
    #[verifier::opaque]
    pub open spec fn dma_byte(self, source: u16) -> BusView {
        let value = self.read_value(source);
        let read = self.read(source).tick(1);
        BusView { ppu: read.ppu.spec_write_oam_data_register(value), ..read }.tick(1)
    }

    /// The bus after a sprite transfer from page `page`: one idle cycle,
    /// one more where the cycle counter is odd, then 256 bytes at two
    /// cycles each.
    pub open spec fn dma(self, page: u8) -> BusView {
        let aligned = if self.cpu_cycles % 2 == 1 {
            self.tick(1)
        } else {
            self
        };
        aligned.tick(1).dma_bytes(page, 256)
    }

    /// The bus after a write of `value` to `index`.
    #[verifier::opaque]
    pub open spec fn write(self, index: u16, value: u8) -> BusView {
        let index = spec_mirror_address(index);
        if index <= CPU_RAM_PAGE_END {
            BusView { cpu_memory: spec_array_update(self.cpu_memory, (index % 0x800) as int, value), ..self }
        } else if index == PPU_CTRL_ADDRESS {
            BusView { ppu: self.ppu.spec_write_control_register(value), ..self }
        } else if index == PPU_MASK_ADDRESS {
            BusView { ppu: self.ppu.spec_write_mask_register(value), ..self }
        } else if index == OAM_ADDRESS {
            BusView { ppu: self.ppu.spec_write_oam_address_register(value), ..self }
        } else if index == OAM_DATA_ADDRESS {
            BusView { ppu: self.ppu.spec_write_oam_data_register(value), ..self }
        } else if index == PPU_SCROLL {
            BusView { ppu: self.ppu.spec_write_scroll_register(value), ..self }
        } else if index == PPU_ADDRESS {
            BusView { ppu: self.ppu.spec_write_address_register(value), ..self }
        } else if index == PPU_DATA_ADDRESS {
            let (ppu, cartridge) = self.ppu.spec_write_data_register(self.cartridge, value);
            BusView { ppu, cartridge, ..self }
        } else if index == OAM_DMA_ADDRESS {
            self.dma(value)
        } else if index == JOYPAD_1_IO_ADDRESS || index == JOYPAD_2_IO_ADDRESS {
            BusView {
                joypads: spec_array_update(
                    self.joypads,
                    (index % 2) as int,
                    self.joypads[(index % 2) as int].spec_write(),
                ),
                ..self
            }
        } else if index >= CARTRIDGE_PAGE_START {
            BusView { cartridge: self.cartridge.cpu_write_u8(index as usize, value), ..self }
        } else {
            self
        }
    }

    /// The bus after a 16-bit write at `index`, low byte first.
    pub open spec fn write_u16(self, index: u16, value: u16) -> BusView {
        self.write(index, (value % 256) as u8).write(next_address(index), (value / 256) as u8)
    }
}

/// See [`spec_mirror_address`].
fn mirror_address(index: u16) -> (mirrored: u16)
    ensures
        mirrored == spec_mirror_address(index),
{
    if IO_PAGE_START <= index && index <= IO_PAGE_END {
        PPU_CTRL_ADDRESS + index % 8
    } else {
        index
    }
}

impl Bus {
    /// A bus around a picture unit and a cartridge.
    pub fn new(ppu_device: PPU, cartridge: Cartridge) -> (bus: Bus)
        ensures
            bus@ == BusView::spec_new(ppu_device, cartridge@),
    {
        Bus {
            cpu_memory: [0u8; 2048],
            cpu_cycles: 0,
            ppu: ppu_device,
            cartridge,
            joypads: [Joypad::new(); 2],
        }
    }

    /// Tests whether picture unit and cartridge are in states that the
    /// bus can work with.
    pub fn is_well_formed(&self) -> (ok: bool)
        ensures
            ok == self@.wf(),
    {
        self.ppu.is_well_formed() && self.cartridge.is_well_formed()
    }

    /// Nothing to do: the cartridge is handed over when the bus is made.
    pub fn load_rom(&mut self)
        ensures
            final(self)@ == old(self)@,
    {
    }

    /// Whether the picture unit has raised the interrupt.
    pub fn poll_nmi_interrupt(&mut self) -> (pending: bool)
        ensures
            pending == old(self).ppu.nmi_interrupt,
            final(self)@ == old(self)@,
    {
        self.ppu.nmi_interrupt
    }

    /// Lowers the interrupt.
    pub fn nmi_handled(&mut self)
        ensures
            final(self)@ == old(self)@.nmi_handled(),
    {
        self.ppu.nmi_interrupt = false;
    }

    /// Reads the byte at `index`.
    pub fn read_memory_u8(&mut self, index: u16) -> (value: u8)
        requires
            old(self)@.wf(),
        ensures
            value == old(self)@.read_value(index),
            final(self)@ == old(self)@.read(index),
            final(self)@.wf(),
            old(self)@.ppu.precedes(final(self)@.ppu),
    {
        reveal(BusView::read_value);
        reveal(BusView::read);
        let index = mirror_address(index);
        if index <= CPU_RAM_PAGE_END {
            self.cpu_memory[(index % 0x800) as usize]
        } else if index == PPU_STATUS_ADDRESS {
            self.ppu.read_status_register()
        } else if index == OAM_DATA_ADDRESS {
            self.ppu.read_oam_data_register()
        } else if index == PPU_DATA_ADDRESS {
            self.ppu.read_data_register(&self.cartridge)
        } else if index == JOYPAD_1_IO_ADDRESS || index == JOYPAD_2_IO_ADDRESS {
            let joypad_index = (index % 2) as usize;
            self.joypads[joypad_index].read()
        } else if index >= CARTRIDGE_PAGE_START {
            self.cartridge.cpu_read_u8(index as usize)
        } else {
            0
        }
    }

    /// Reads the 16-bit value at `index`, low byte first.
    pub fn read_memory_u16(&mut self, index: u16) -> (value: u16)
        requires
            old(self)@.wf(),
        ensures
            (final(self)@, value) == old(self)@.read_u16(index),
            final(self)@.wf(),
            old(self)@.ppu.precedes(final(self)@.ppu),
    {
        let low = self.read_memory_u8(index);
        let high = self.read_memory_u8(index.wrapping_add(1));
        (high as u16) * 256 + low as u16
    }

    /// Runs the picture unit for three dots.
    fn run_cycle(&mut self)
        requires
            old(self)@.wf(),
        ensures
            final(self)@ == old(self)@.run_dots(3),
            final(self)@.wf(),
            final(self).cpu_cycles == old(self).cpu_cycles,
            old(self)@.ppu.strictly_precedes(final(self)@.ppu),
    {
        reveal_with_fuel(BusView::run_dots, 4);
        self.ppu.tick(&mut self.cartridge);
        self.ppu.tick(&mut self.cartridge);
        self.ppu.tick(&mut self.cartridge);
    }

    /// Lets `cycles` processor cycles pass: three dots of the picture unit for
    /// each.
    pub fn tick(&mut self, cycles: u64)
        requires
            old(self)@.wf(),
        ensures
            final(self)@ == old(self)@.tick(cycles),
            final(self)@.wf(),
            old(self)@.ppu.precedes(final(self)@.ppu),
            cycles >= 1 ==> old(self)@.ppu.strictly_precedes(final(self)@.ppu),
    {
        reveal(BusView::tick);
        let ghost start = self@;
        let mut i: u64 = 0;
        while i < cycles
            invariant
                i <= cycles,
                self@ == start.run_dots(3 * i as nat),
                self@.wf(),
                self.cpu_cycles == start.cpu_cycles,
                start.ppu.precedes(self.ppu),
                i >= 1 ==> start.ppu.strictly_precedes(self.ppu),
            decreases cycles - i,
        {
            proof {
                lemma_run_dots_add(start, 3 * i as nat, 3);
            }
            self.run_cycle();
            i += 1;
        }
        self.cpu_cycles = self.cpu_cycles.wrapping_add(cycles);
    }

    /// Copies 256 bytes from page `page` through the OAM data port.
    fn oam_dma(&mut self, page: u8)
        requires
            old(self)@.wf(),
        ensures
            final(self)@ == old(self)@.dma(page),
            final(self)@.wf(),
            old(self)@.ppu.precedes(final(self)@.ppu),
    {
        if self.cpu_cycles % 2 == 1 {
            self.tick(1);
        }
        self.tick(1);
        let ghost start = self@;
        let mut i: u16 = 0;
        while i < 256
            invariant
                i <= 256,
                self@ == start.dma_bytes(page, i as nat),
                self@.wf(),
                start.ppu.precedes(self.ppu),
            decreases 256 - i,
        {
            self.oam_dma_byte((page as u16) * 256 + i);
            i += 1;
        }
    }

    /// Copies one byte of a sprite transfer.
    fn oam_dma_byte(&mut self, source: u16)
        requires
            old(self)@.wf(),
        ensures
            final(self)@ == old(self)@.dma_byte(source),
            final(self)@.wf(),
            old(self)@.ppu.precedes(final(self)@.ppu),
    {
        reveal(BusView::dma_byte);
        let value = self.read_memory_u8(source);
        self.tick(1);
        self.ppu.write_oam_dma_register_seq(value);
        self.tick(1);
    }

    /// Writes `value` to `index`.
    pub fn write_memory_u8(&mut self, index: u16, value: u8)
        requires
            old(self)@.wf(),
        ensures
            final(self)@ == old(self)@.write(index, value),
            final(self)@.wf(),
            old(self)@.ppu.precedes(final(self)@.ppu),
    {
        reveal(BusView::write);
        let index = mirror_address(index);
        if index <= CPU_RAM_PAGE_END {
            self.cpu_memory[(index % 0x800) as usize] = value;
        } else if index == PPU_CTRL_ADDRESS {
            self.ppu.write_control_register(value);
        } else if index == PPU_MASK_ADDRESS {
            self.ppu.write_mask_register(value);
        } else if index == OAM_ADDRESS {
            self.ppu.write_oam_address_register(value);
        } else if index == OAM_DATA_ADDRESS {
            self.ppu.write_oam_data_register(value);
        } else if index == PPU_SCROLL {
            self.ppu.write_scroll_register(value);
        } else if index == PPU_ADDRESS {
            self.ppu.write_address_register(value);
        } else if index == PPU_DATA_ADDRESS {
            self.ppu.write_data_register(&mut self.cartridge, value);
        } else if index == OAM_DMA_ADDRESS {
            self.oam_dma(value);
        } else if index == JOYPAD_1_IO_ADDRESS || index == JOYPAD_2_IO_ADDRESS {
            let joypad_index = (index % 2) as usize;
            self.joypads[joypad_index].write();
        } else if index >= CARTRIDGE_PAGE_START {
            self.cartridge.cpu_write_u8(index as usize, value);
        }
    }

    /// Writes a 16-bit value at `index`, low byte first.
    pub fn write_memory_u16(&mut self, index: u16, value: u16)
        requires
            old(self)@.wf(),
        ensures
            final(self)@ == old(self)@.write_u16(index, value),
            final(self)@.wf(),
            old(self)@.ppu.precedes(final(self)@.ppu),
    {
        self.write_memory_u8(index, (value % 256) as u8);
        self.write_memory_u8(index.wrapping_add(1), (value / 256) as u8);
    }
}

/// Running `a` dots and then `b` more is running `a + b` dots.
pub proof fn lemma_run_dots_add(bus: BusView, a: nat, b: nat)
    ensures
        bus.run_dots(a).run_dots(b) == bus.run_dots(a + b),
    decreases b,
{
    if b > 0 {
        lemma_run_dots_add(bus, a, (b - 1) as nat);
    }
}

/// Below $2000 the bus is work RAM, repeated every 2 KiB: a write changes
/// one byte of it and nothing else, and a read changes nothing.
pub proof fn lemma_ram_access(bus: BusView, index: u16, value: u8)
    requires
        index <= CPU_RAM_PAGE_END,
    ensures
        bus.write(index, value) == (BusView {
            cpu_memory: spec_array_update(bus.cpu_memory, (index % 0x800) as int, value),
            ..bus
        }),
        bus.read(index) == bus,
        bus.read_value(index) == bus.cpu_memory[(index % 0x800) as int],
{
    reveal(BusView::write);
    reveal(BusView::read);
    reveal(BusView::read_value);
}

/// From $4020 up the bus is the cartridge: a read reports what the
/// cartridge reads and changes nothing, and a write reaches the cartridge
/// alone.
pub proof fn lemma_cartridge_access(bus: BusView, index: u16, value: u8)
    requires
        index >= CARTRIDGE_PAGE_START,
    ensures
        bus.write(index, value) == (BusView {
            cartridge: bus.cartridge.cpu_write_u8(index as usize, value),
            ..bus
        }),
        bus.read(index) == bus,
        bus.read_value(index) == bus.cartridge.cpu_read_u8(index as usize),
{
    reveal(BusView::write);
    reveal(BusView::read);
    reveal(BusView::read_value);
}

/// A read never moves the cycle counter.
pub proof fn lemma_read_keeps_cycles(bus: BusView, index: u16)
    ensures
        bus.read(index).cpu_cycles == bus.cpu_cycles,
{
    reveal(BusView::read);
}

/// Each byte of a sprite transfer takes two cycles.
pub proof fn lemma_dma_bytes_cycles(bus: BusView, page: u8, count: nat)
    requires
        bus.cpu_cycles + 2 * count <= u64::MAX,
    ensures
        bus.dma_bytes(page, count).cpu_cycles == bus.cpu_cycles + 2 * count,
    decreases count,
{
    if count > 0 {
        lemma_dma_bytes_cycles(bus, page, (count - 1) as nat);
        let before = bus.dma_bytes(page, (count - 1) as nat);
        lemma_read_keeps_cycles(before, word((count - 1) as u8, page));
        reveal(BusView::dma_byte);
        reveal(BusView::tick);
    }
}

/// A sprite transfer takes 513 cycles, and 514 where it begins on an odd
/// cycle (short of the cycle counter's wrap at 64 bits).
pub proof fn lemma_dma_cycles(bus: BusView, page: u8)
    requires
        bus.cpu_cycles + 514 <= u64::MAX,
    ensures
        bus.dma(page).cpu_cycles == bus.cpu_cycles + if bus.cpu_cycles % 2 == 1 {
            514int
        } else {
            513int
        },
        bus.write(OAM_DMA_ADDRESS, page) == bus.dma(page),
{
    reveal(BusView::write);
    reveal(BusView::tick);
    let aligned = if bus.cpu_cycles % 2 == 1 {
        bus.tick(1)
    } else {
        bus
    };
    lemma_dma_bytes_cycles(aligned.tick(1), page, 256);
}

/// One byte of a sprite transfer from work RAM: the byte at the source
/// goes to object attribute memory at the OAM address, the OAM address
/// moves on by one, and work RAM and the other bytes of object attribute
/// memory stay.
proof fn lemma_dma_byte(before: BusView, source: u16)
    requires
        source <= CPU_RAM_PAGE_END,
    ensures
        ({
            let copied = before.dma_byte(source);
            &&& copied.cpu_memory == before.cpu_memory
            &&& copied.ppu.oam_address_register == before.ppu.oam_address_register.wrapping_add(
                1,
            )
            &&& copied.ppu.spec_oam_byte(before.ppu.oam_address_register)
                == before.cpu_memory[(source % 0x800) as int]
            &&& forall|other: u8|
                other != before.ppu.oam_address_register ==> copied.ppu.spec_oam_byte(other)
                    == before.ppu.spec_oam_byte(other)
        }),
{
    reveal(BusView::dma_byte);
    reveal(BusView::tick);
    lemma_ram_access(before, source, 0);
    let value = before.read_value(source);
    let read = before.tick(1);
    lemma_run_dots_outside(before, 3);
    let written = BusView { ppu: read.ppu.spec_write_oam_data_register(value), ..read };
    lemma_run_dots_outside(written, 3);
    let address = before.ppu.oam_address_register;
    assert(written.ppu.spec_oam_byte(address) == value);
    assert forall|other: u8| other != address implies written.ppu.spec_oam_byte(other)
        == before.ppu.spec_oam_byte(other) by {
        if other / 4 == address / 4 {
            lemma_set_then_get(read.ppu.oam_sprites[(address / 4) as int], address, other, value);
        }
    }
}

/// The OAM address after one more byte: one place further, wrapping at
/// 256.
proof fn lemma_oam_address_moves(start: u8, count: nat)
    requires
        count >= 1,
    ensures
        (((start + count - 1) % 256) as u8).wrapping_add(1) == (start + count) % 256,
{
}

/// After the first `count` bytes of a sprite transfer from work RAM,
/// byte `k` of the page is in object attribute memory, `k` places after
/// the OAM address that the transfer began with; the OAM address has moved
/// on by `count`, and work RAM is as it was.
pub proof fn lemma_dma_bytes_copied(bus: BusView, page: u8, count: nat, k: nat)
    requires
        page < 0x20,
        count <= 256,
    ensures
        bus.dma_bytes(page, count).cpu_memory == bus.cpu_memory,
        bus.dma_bytes(page, count).ppu.oam_address_register == (bus.ppu.oam_address_register
            + count) % 256,
        k < count ==> bus.dma_bytes(page, count).ppu.spec_oam_byte(
            ((bus.ppu.oam_address_register + k) % 256) as u8,
        ) == bus.cpu_memory[(page * 256 + k) % 0x800],
    decreases count,
{
    if count > 0 {
        lemma_dma_bytes_copied(bus, page, (count - 1) as nat, k);
        let before = bus.dma_bytes(page, (count - 1) as nat);
        let after = bus.dma_bytes(page, count);
        let start = bus.ppu.oam_address_register;
        lemma_dma_byte(before, word((count - 1) as u8, page));
        lemma_oam_address_moves(start, count);
        assert(before.ppu.oam_address_register == (start + count - 1) % 256);
        assert(after.cpu_memory == bus.cpu_memory);
        assert(after.ppu.oam_address_register == (start + count) % 256);
        if k < count {
            let target = ((start + k) % 256) as u8;
            if k == count - 1 {
                assert(target == before.ppu.oam_address_register);
            } else {
                assert(target != before.ppu.oam_address_register);
                assert(after.ppu.spec_oam_byte(target) == before.ppu.spec_oam_byte(target));
            }
        }
    }
}

/// A sprite transfer from a page of work RAM copies the page's 256 bytes
/// to object attribute memory, starting at the OAM address and wrapping
/// around; it leaves the OAM address and work RAM as they were.
pub proof fn lemma_dma_copies_page(bus: BusView, page: u8, k: nat)
    requires
        page < 0x20,
        k < 256,
    ensures
        bus.dma(page).ppu.spec_oam_byte(((bus.ppu.oam_address_register + k) % 256) as u8)
            == bus.cpu_memory[(page * 256 + k) % 0x800],
        bus.dma(page).ppu.oam_address_register == bus.ppu.oam_address_register,
        bus.dma(page).cpu_memory == bus.cpu_memory,
{
    let aligned = if bus.cpu_cycles % 2 == 1 {
        bus.tick(1)
    } else {
        bus
    };
    reveal(BusView::tick);
    lemma_run_dots_outside(bus, 3);
    let started = aligned.tick(1);
    lemma_run_dots_outside(aligned, 3);
    lemma_dma_bytes_copied(started, page, 256, k);
}

} // verus!
