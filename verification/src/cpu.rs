//! The processor: registers, status flags, stack, interrupts, and how an
//! instruction finds and stores its operand.

use vstd::prelude::*;
use crate::addressing::MemoryAccessMode;
use vstd::array::spec_array_update;
use crate::bus::{lemma_ram_access, word, Bus, BusView};

verus! {

pub const STACK_PAGE_START: u16 = 0x100;

pub const STACK_POINTER_START: u8 = 0xFD;

pub const RESET_PROGRAM_POINTER_ADDRESS: u16 = 0xFFFC;

pub const RESET_STATUS: u8 = 0x24;

pub const RESET_CYCLES: u64 = 8;

pub const PAGE_CROSSING_CYCLES: u64 = 1;

pub const BRK_INTERRUPT_VECTOR_ADDRESS: u16 = 0xFFFE;

pub const IRQ_INTERRUPT_VECTOR_ADDRESS: u16 = 0xFFFE;

pub const NMI_INTERRUPT_VECTOR_ADDRESS: u16 = 0xFFFA;

/// The processor's status register.
#[derive(Clone, Copy, Debug, PartialEq, Eq, Hash, Structural)]
pub struct StatusFlags {
    pub bits: u8,
}

impl StatusFlags {
    pub const CARRY: u8 = 0b0000_0001;
    pub const ZERO: u8 = 0b0000_0010;
    pub const INTERRUPT_DISABLE: u8 = 0b0000_0100;
    pub const DECIMAL_MODE: u8 = 0b0000_1000;
    pub const BREAK: u8 = 0b0001_0000;
    pub const UNUSED: u8 = 0b0010_0000;
    pub const OVERFLOW: u8 = 0b0100_0000;
    pub const NEGATIVE: u8 = 0b1000_0000;

    /// The status with no flag set.
    pub fn empty() -> (r: StatusFlags)
        ensures
            r.bits == 0,
    {
        StatusFlags { bits: 0 }
    }

    /// All 256 values are valid images.
    pub fn from_bits(bits: u8) -> (r: StatusFlags)
        ensures
            r.bits == bits,
    {
        StatusFlags { bits }
    }

    /// The status as a byte.
    #[verifier::allow_in_spec]
    pub fn bits(&self) -> u8
        returns
            self.bits,
    {
        self.bits
    }

    /// Whether every bit of `flag` is set.
    #[verifier::allow_in_spec]
    pub fn contains(&self, flag: u8) -> bool
        returns
            self.bits & flag == flag,
    {
        self.bits & flag == flag
    }

    /// The image with the bits of `flag` set.
    pub open spec fn spec_insert(self, flag: u8) -> StatusFlags {
        StatusFlags { bits: self.bits | flag }
    }

    /// The image with the bits of `flag` cleared.
    pub open spec fn spec_remove(self, flag: u8) -> StatusFlags {
        StatusFlags { bits: self.bits & !flag }
    }

    /// The image with the bits of `flag` set or cleared.
    pub open spec fn spec_set(self, flag: u8, on: bool) -> StatusFlags {
        if on {
            self.spec_insert(flag)
        } else {
            self.spec_remove(flag)
        }
    }

    /// Sets the bits of `flag`.
    pub fn insert(&mut self, flag: u8)
        ensures
            *final(self) == old(self).spec_insert(flag),
    {
        self.bits = self.bits | flag;
    }

    /// Clears the bits of `flag`.
    pub fn remove(&mut self, flag: u8)
        ensures
            *final(self) == old(self).spec_remove(flag),
    {
        self.bits = self.bits & !flag;
    }

    /// Sets or clears the bits of `flag`.
    pub fn set(&mut self, flag: u8, on: bool)
        ensures
            *final(self) == old(self).spec_set(flag, on),
    {
        if on {
            self.insert(flag);
        } else {
            self.remove(flag);
        }
    }
}

/// What a flag operation leaves: the flag is as it was set, and every
/// other flag is as it was.
pub proof fn lemma_flag_set(bits: u8, flag: u8, other: u8)
    by (bit_vector)
    requires
        flag == 0x01 || flag == 0x02 || flag == 0x04 || flag == 0x08 || flag == 0x10 || flag
            == 0x20 || flag == 0x40 || flag == 0x80,
        other == 0x01 || other == 0x02 || other == 0x04 || other == 0x08 || other == 0x10
            || other == 0x20 || other == 0x40 || other == 0x80,
        other != flag,
    ensures
        (bits | flag) & flag == flag,
        (bits & !flag) & flag != flag,
        ((bits | flag) & other == other) == (bits & other == other),
        ((bits & !flag) & other == other) == (bits & other == other),
{
}

/// Whether a byte names one flag: it has exactly one bit.
pub open spec fn is_flag(flag: u8) -> bool {
    flag == 0x01 || flag == 0x02 || flag == 0x04 || flag == 0x08 || flag == 0x10 || flag == 0x20
        || flag == 0x40 || flag == 0x80
}

/// After a flag was set or cleared it reads as it was set, and every other
/// flag reads as before.
pub proof fn lemma_set_then_contains(status: StatusFlags, flag: u8, on: bool, other: u8)
    requires
        is_flag(flag),
        is_flag(other),
    ensures
        status.spec_set(flag, on).contains(flag) == on,
        other != flag ==> status.spec_set(flag, on).contains(other) == status.contains(other),
{
    if other != flag {
        lemma_flag_set(status.bits, flag, other);
    } else {
        lemma_flag_set(status.bits, flag, if flag == 0x01 { 0x02 } else { 0x01 });
    }
}

#[derive(PartialEq, Eq, Debug, Copy, Clone, Structural)]
pub enum InterruptType {
    BRK,
    IRQ,
    NMI,
}

/// An interrupt: its kind, where its handler's address is kept, and how
/// many cycles taking it costs.
#[derive(Clone, Copy, Debug, PartialEq, Eq, Structural)]
pub struct CpuInterrupt {
    pub interrupt_type: InterruptType,
    pub vector_addr: u16,
    pub cycles: u64,
}

impl CpuInterrupt {
    /// The software interrupt; its instruction's own cycles come on top.
    #[verifier::allow_in_spec]
    pub fn brk() -> CpuInterrupt
        returns
            (CpuInterrupt {
                interrupt_type: InterruptType::BRK,
                vector_addr: BRK_INTERRUPT_VECTOR_ADDRESS,
                cycles: 1,
            }),
    {
        CpuInterrupt {
            interrupt_type: InterruptType::BRK,
            vector_addr: BRK_INTERRUPT_VECTOR_ADDRESS,
            cycles: 1,
        }
    }

    /// The maskable interrupt, which nothing in this machine raises.
    #[verifier::allow_in_spec]
    pub fn irq() -> CpuInterrupt
        returns
            (CpuInterrupt {
                interrupt_type: InterruptType::IRQ,
                vector_addr: IRQ_INTERRUPT_VECTOR_ADDRESS,
                cycles: 3,
            }),
    {
        CpuInterrupt {
            interrupt_type: InterruptType::IRQ,
            vector_addr: IRQ_INTERRUPT_VECTOR_ADDRESS,
            cycles: 3,
        }
    }

    /// The picture unit's interrupt.
    #[verifier::allow_in_spec]
    pub fn nmi() -> CpuInterrupt
        returns
            (CpuInterrupt {
                interrupt_type: InterruptType::NMI,
                vector_addr: NMI_INTERRUPT_VECTOR_ADDRESS,
                cycles: 7,
            }),
    {
        CpuInterrupt {
            interrupt_type: InterruptType::NMI,
            vector_addr: NMI_INTERRUPT_VECTOR_ADDRESS,
            cycles: 7,
        }
    }
}

/// The processor together with the bus it drives.
pub struct CPU {
    pub program_pointer: u16,
    pub stack_pointer: u8,
    pub cycles: u64,
    pub register_a: u8,
    pub register_x: u8,
    pub register_y: u8,
    pub status: StatusFlags,
    pub bus: Bus,
}

/// The whole machine as plain values.
pub struct CpuView {
    pub program_pointer: u16,
    pub stack_pointer: u8,
    pub cycles: u64,
    pub register_a: u8,
    pub register_x: u8,
    pub register_y: u8,
    pub status: StatusFlags,
    pub bus: BusView,
}

impl View for CPU {
    type V = CpuView;

    open spec fn view(&self) -> CpuView {
        CpuView {
            program_pointer: self.program_pointer,
            stack_pointer: self.stack_pointer,
            cycles: self.cycles,
            register_a: self.register_a,
            register_x: self.register_x,
            register_y: self.register_y,
            status: self.status,
            bus: self.bus@,
        }
    }
}

/// An operand byte of a relative branch as a 16-bit value with the sign
/// carried up from bit 7.
pub open spec fn sign_extend(value: u8) -> u16 {
    if value >= 0x80 {
        (0xFF00 + value) as u16
    } else {
        value as u16
    }
}

/// The operand that subtraction adds: every bit turned over.
pub open spec fn complement(value: u8) -> u8 {
    value ^ 0xFF
}

impl CpuView {
    /// Whether the state is one that the machine can be in.
    pub open spec fn wf(self) -> bool {
        self.bus.wf()
    }

    // ---- the bus, seen from the processor ----

    /// The machine after a read of `index`, and the byte read.
    pub open spec fn bus_read(self, index: u16) -> (CpuView, u8) {
        (CpuView { bus: self.bus.read(index), ..self }, self.bus.read_value(index))
    }

    /// The machine after a 16-bit read at `index`, and the value read.
    pub open spec fn bus_read_u16(self, index: u16) -> (CpuView, u16) {
        (CpuView { bus: self.bus.read_u16(index).0, ..self }, self.bus.read_u16(index).1)
    }

    /// The machine after a write of `value` to `index`.
    pub open spec fn bus_write(self, index: u16, value: u8) -> CpuView {
        CpuView { bus: self.bus.write(index, value), ..self }
    }

    /// The machine after `cycles` cycles passed on the bus.
    pub open spec fn bus_tick(self, cycles: u64) -> CpuView {
        CpuView { bus: self.bus.tick(cycles), ..self }
    }

    // ---- status ----

    /// The machine with one flag set or cleared.
    pub open spec fn set_flag(self, flag: u8, on: bool) -> CpuView {
        CpuView { status: self.status.spec_set(flag, on), ..self }
    }

    /// Negative follows bit 7 of the result.
    pub open spec fn update_negative_status(self, result: u8) -> CpuView {
        self.set_flag(StatusFlags::NEGATIVE, result >= 0x80)
    }

    /// Zero says whether the result is 0.
    pub open spec fn update_zero_status(self, result: u8) -> CpuView {
        self.set_flag(StatusFlags::ZERO, result == 0)
    }

    /// The machine with negative and zero following a result.
    pub open spec fn update_status(self, result: u8) -> CpuView {
        self.update_negative_status(result).update_zero_status(result)
    }

    // ---- registers ----

    /// The machine with the accumulator loaded, and negative and zero
    /// following it.
    pub open spec fn set_register_a(self, value: u8) -> CpuView {
        CpuView { register_a: value, ..self }.update_status(value)
    }

    /// The machine with X loaded, and negative and zero following it.
    pub open spec fn set_register_x(self, value: u8) -> CpuView {
        CpuView { register_x: value, ..self }.update_status(value)
    }

    /// The machine with Y loaded, and negative and zero following it.
    pub open spec fn set_register_y(self, value: u8) -> CpuView {
        CpuView { register_y: value, ..self }.update_status(value)
    }

    /// The machine with `value` ored into the accumulator.
    pub open spec fn or_register_a(self, value: u8) -> CpuView {
        self.set_register_a(self.register_a | value)
    }

    /// The machine with `value` anded into the accumulator.
    pub open spec fn and_register_a(self, value: u8) -> CpuView {
        self.set_register_a(self.register_a & value)
    }

    /// The machine with `value` exclusive-ored into the accumulator.
    pub open spec fn xor_register_a(self, value: u8) -> CpuView {
        self.set_register_a(self.register_a ^ value)
    }

    /// The machine after `value` and the carry were added to the
    /// accumulator. Carry says that the sum left eight bits; overflow says
    /// that both operands differ in sign from the result.
    pub open spec fn add_to_register_a(self, value: u8) -> CpuView {
        let carry_in: int = if self.status.contains(StatusFlags::CARRY) {
            1
        } else {
            0
        };
        let sum = self.register_a + value + carry_in;
        let result = (sum % 256) as u8;
        self.set_flag(StatusFlags::CARRY, sum > 255).set_flag(
            StatusFlags::OVERFLOW,
            (self.register_a ^ result) & (value ^ result) & 0x80 != 0,
        ).set_register_a(result)
    }

    /// Subtraction is addition of the complement.
    pub open spec fn sub_from_register_a(self, value: u8) -> CpuView {
        self.add_to_register_a(complement(value))
    }

    // ---- stack ----

    /// The address of the stack's next free byte.
    pub open spec fn stack_address(self) -> u16 {
        (STACK_PAGE_START + self.stack_pointer) as u16
    }

    /// A push stores at the stack pointer and then moves it down.
    pub open spec fn push_stack_u8(self, value: u8) -> CpuView {
        CpuView {
            stack_pointer: self.stack_pointer.wrapping_sub(1),
            ..self.bus_write(self.stack_address(), value)
        }
    }

    /// A 16-bit push stores the high byte first.
    pub open spec fn push_stack_u16(self, value: u16) -> CpuView {
        self.push_stack_u8((value / 256) as u8).push_stack_u8((value % 256) as u8)
    }

    /// A pull moves the stack pointer up and then reads at it.
    pub open spec fn pop_stack_u8(self) -> (CpuView, u8) {
        CpuView { stack_pointer: self.stack_pointer.wrapping_add(1), ..self }.bus_read(
            (STACK_PAGE_START + self.stack_pointer.wrapping_add(1)) as u16,
        )
    }

    /// A 16-bit pull reads the low byte first.
    pub open spec fn pop_stack_u16(self) -> (CpuView, u16) {
        let (cpu, low) = self.pop_stack_u8();
        let (cpu, high) = cpu.pop_stack_u8();
        (cpu, word(low, high))
    }

    // ---- interrupts ----

    /// The machine after an interrupt was taken: the program counter is
    /// pushed; then the status, with break set for the software interrupt
    /// and cleared for the others, and unused set; then interrupts are
    /// disabled, the interrupt's cycles pass, and the program counter is
    /// loaded from the interrupt's vector.
    #[verifier::opaque]
    pub open spec fn interrupt(self, interrupt: CpuInterrupt) -> CpuView {
        let cpu = self.push_stack_u16(self.program_pointer).set_flag(
            StatusFlags::BREAK,
            interrupt.interrupt_type == InterruptType::BRK,
        ).set_flag(StatusFlags::UNUSED, true);
        let cpu = cpu.push_stack_u8(cpu.status.bits).set_flag(
            StatusFlags::INTERRUPT_DISABLE,
            true,
        ).bus_tick(interrupt.cycles);
        let (cpu, vector) = cpu.bus_read_u16(interrupt.vector_addr);
        CpuView { program_pointer: vector, ..cpu }
    }

    /// The machine after reset: registers cleared, the stack pointer at
    /// $FD, the program counter loaded from $FFFC, the status $24, and
    /// eight cycles gone.
    #[verifier::opaque]
    pub open spec fn reset(self) -> CpuView {
        let (cpu, vector) = CpuView {
            register_a: 0,
            register_x: 0,
            register_y: 0,
            stack_pointer: STACK_POINTER_START,
            ..self
        }.bus_read_u16(RESET_PROGRAM_POINTER_ADDRESS);
        CpuView {
            program_pointer: vector,
            status: StatusFlags { bits: RESET_STATUS },
            ..cpu
        }.bus_tick(RESET_CYCLES)
    }

    /// The machine at power-on around the given bus.
    pub open spec fn spec_new(bus: BusView) -> CpuView {
        CpuView {
            program_pointer: 0xC000,
            stack_pointer: STACK_POINTER_START,
            cycles: 0,
            register_a: 0,
            register_x: 0,
            register_y: 0,
            status: StatusFlags { bits: RESET_STATUS },
            bus,
        }.reset()
    }

    // ---- operands ----

    /// One more cycle passes where indexing left the base's page.
    pub open spec fn cross_page(self, base: u16, added: u16) -> CpuView {
        if MemoryAccessMode::page_crossed(base as usize, added as usize) {
            self.bus_tick(PAGE_CROSSING_CYCLES)
        } else {
            self
        }
    }

    /// The machine after an indexed address was formed: a read in a mode
    /// flagged for it pays for leaving the page.
    pub open spec fn indexed(self, base: u16, added: u16, read: bool, crossing: bool) -> CpuView {
        if read && crossing {
            self.cross_page(base, added)
        } else {
            self
        }
    }

    /// The 16-bit value whose bytes are at `low_address` and
    /// `high_address`, read in that order.
    pub open spec fn read_pointer(self, low_address: u16, high_address: u16) -> (CpuView, u16) {
        let (cpu, low) = self.bus_read(low_address);
        let (cpu, high) = cpu.bus_read(high_address);
        (cpu, word(low, high))
    }

    /// The effective address of an operand whose bytes start at `index`,
    /// and the machine after the reads and cycles that finding it took.
    ///
    /// Zero-page indexing wraps within the zero page, as do the two bytes
    /// of an indirect pointer kept there. The indirect jump reads the high
    /// byte of its target from the start of the pointer's page where the
    /// pointer's low byte is $FF. A relative operand is returned with its
    /// sign carried up.
    #[verifier::opaque]
    pub open spec fn get_opcode_data_address(
        self,
        index: u16,
        access_mode: MemoryAccessMode,
        read: bool,
    ) -> (CpuView, u16) {
        match access_mode {
            MemoryAccessMode::Implied => (self, 0),
            MemoryAccessMode::Immediate => (self, index),
            MemoryAccessMode::Accumulator => (self, self.register_a as u16),
            MemoryAccessMode::ZeroPage => {
                let (cpu, operand) = self.bus_read(index);
                (cpu, operand as u16)
            },
            MemoryAccessMode::ZeroPageX => {
                let (cpu, operand) = self.bus_read(index);
                (cpu, operand.wrapping_add(self.register_x) as u16)
            },
            MemoryAccessMode::ZeroPageY => {
                let (cpu, operand) = self.bus_read(index);
                (cpu, operand.wrapping_add(self.register_y) as u16)
            },
            MemoryAccessMode::Relative(crossing) => {
                let (cpu, operand) = self.bus_read(index);
                (cpu, sign_extend(operand))
            },
            MemoryAccessMode::Absolute => self.bus_read_u16(index),
            MemoryAccessMode::AbsoluteX(crossing) => {
                let (cpu, base) = self.bus_read_u16(index);
                let added = base.wrapping_add(self.register_x as u16);
                (cpu.indexed(base, added, read, crossing), added)
            },
            MemoryAccessMode::AbsoluteY(crossing) => {
                let (cpu, base) = self.bus_read_u16(index);
                let added = base.wrapping_add(self.register_y as u16);
                (cpu.indexed(base, added, read, crossing), added)
            },
            MemoryAccessMode::Indirect => {
                let (cpu, pointer) = self.read_pointer(index, index.wrapping_add(1));
                if pointer % 256 == 0xFF {
                    cpu.read_pointer(pointer, ((pointer / 256) * 256) as u16)
                } else {
                    cpu.read_pointer(pointer, pointer.wrapping_add(1))
                }
            },
            MemoryAccessMode::IndirectX => {
                let (cpu, operand) = self.bus_read(index);
                let pointer = operand.wrapping_add(self.register_x);
                cpu.read_pointer(pointer as u16, pointer.wrapping_add(1) as u16)
            },
            MemoryAccessMode::IndirectY(crossing) => {
                let (cpu, pointer) = self.bus_read(index);
                let (cpu, base) = cpu.read_pointer(pointer as u16, pointer.wrapping_add(1) as u16);
                let added = base.wrapping_add(self.register_y as u16);
                (cpu.indexed(base, added, read, crossing), added)
            },
        }
    }

    /// The operand, and the machine after it was fetched: the accumulator
    /// in accumulator mode, the byte at the program counter in immediate
    /// mode, else the byte at the effective address.
    #[verifier::opaque]
    pub open spec fn fetch_operand(
        self,
        index: u16,
        access_mode: MemoryAccessMode,
        read: bool,
    ) -> (CpuView, u8) {
        match access_mode {
            MemoryAccessMode::Accumulator => (self, self.register_a),
            MemoryAccessMode::Immediate => self.bus_read(self.program_pointer),
            _ => {
                let (cpu, address) = self.get_opcode_data_address(index, access_mode, read);
                cpu.bus_read(address)
            },
        }
    }

    /// The operand of an instruction that reads it, and the machine after the
    /// fetch.
    pub open spec fn read_opcode_data(self, index: u16, access_mode: MemoryAccessMode) -> (
        CpuView,
        u8,
    ) {
        self.fetch_operand(index, access_mode, true)
    }

    /// As [`Self::read_opcode_data`], but never paying for a page crossing.
    pub open spec fn read_for_trace(self, index: u16, access_mode: MemoryAccessMode) -> (
        CpuView,
        u8,
    ) {
        self.fetch_operand(index, access_mode, false)
    }

    /// The machine after a result was stored where the mode says: nowhere
    /// in implied mode, in the accumulator (with zero and negative
    /// following) in accumulator mode, at the program counter in immediate
    /// mode, else at the effective address, found once more and without
    /// paying for a page crossing.
    #[verifier::opaque]
    pub open spec fn write_opcode_result(
        self,
        index: u16,
        value: u8,
        access_mode: MemoryAccessMode,
    ) -> CpuView {
        match access_mode {
            MemoryAccessMode::Implied => self,
            MemoryAccessMode::Accumulator => self.set_register_a(value),
            MemoryAccessMode::Immediate => self.bus_write(self.program_pointer, value),
            _ => {
                let (cpu, address) = self.get_opcode_data_address(index, access_mode, false);
                cpu.bus_write(address, value)
            },
        }
    }
}

impl CPU {
    /// Tests whether the machine is in a state that it can be stepped from.
    pub fn is_well_formed(&self) -> (ok: bool)
        ensures
            ok == self@.wf(),
    {
        self.bus.is_well_formed()
    }

    /// Powers the processor on around a bus and resets it.
    pub fn new(bus: Bus) -> (cpu: CPU)
        requires
            bus@.wf(),
        ensures
            cpu@ == CpuView::spec_new(bus@),
            cpu@.wf(),
    {
        let mut cpu = CPU {
            program_pointer: 0xC000,
            stack_pointer: STACK_POINTER_START,
            cycles: 0,
            register_a: 0,
            register_x: 0,
            register_y: 0,
            status: StatusFlags::from_bits(RESET_STATUS),
            bus,
        };
        cpu.reset();
        cpu
    }

    /// The machine after reset: registers cleared, the stack pointer at
    /// $FD, the program counter loaded from $FFFC, the status $24, and
    /// eight cycles gone.
    pub fn reset(&mut self)
        requires
            old(self)@.wf(),
        ensures
            final(self)@ == old(self)@.reset(),
            final(self)@.wf(),
            old(self)@.bus.ppu.precedes(final(self)@.bus.ppu),
    {
        reveal(CpuView::reset);
        self.register_a = 0;
        self.register_x = 0;
        self.register_y = 0;
        self.stack_pointer = STACK_POINTER_START;
        self.program_pointer = self.bus.read_memory_u16(RESET_PROGRAM_POINTER_ADDRESS);
        self.status = StatusFlags::from_bits(RESET_STATUS);
        self.bus.tick(RESET_CYCLES);
    }

    /// One more cycle passes where indexing left the base's page.
    pub fn cross_page(&mut self, base: u16, added: u16)
        requires
            old(self)@.wf(),
        ensures
            final(self)@ == old(self)@.cross_page(base, added),
            final(self)@.wf(),
            old(self)@.bus.ppu.precedes(final(self)@.bus.ppu),
    {
        if MemoryAccessMode::page_crossed(base as usize, added as usize) {
            self.bus.tick(PAGE_CROSSING_CYCLES);
        }
    }

    fn read_pointer(&mut self, low_address: u16, high_address: u16) -> (pointer: u16)
        requires
            old(self)@.wf(),
        ensures
            (final(self)@, pointer) == old(self)@.read_pointer(low_address, high_address),
            final(self)@.wf(),
            old(self)@.bus.ppu.precedes(final(self)@.bus.ppu),
    {
        let low = self.bus.read_memory_u8(low_address);
        let high = self.bus.read_memory_u8(high_address);
        (high as u16) * 256 + low as u16
    }

    /// The effective address of an operand whose bytes start at `index`,
    /// and the machine after the reads and cycles that finding it took.
    ///
    /// Zero-page indexing wraps within the zero page, as do the two bytes
    /// of an indirect pointer kept there. The indirect jump reads the high
    /// byte of its target from the start of the pointer's page where the
    /// pointer's low byte is $FF. A relative operand is returned with its
    /// sign carried up.
    pub fn get_opcode_data_address(
        &mut self,
        index: u16,
        access_mode: MemoryAccessMode,
        read: bool,
    ) -> (address: u16)
        requires
            old(self)@.wf(),
        ensures
            (final(self)@, address) == old(self)@.get_opcode_data_address(
                index,
                access_mode,
                read,
            ),
            final(self)@.wf(),
            old(self)@.bus.ppu.precedes(final(self)@.bus.ppu),
    {
        reveal(CpuView::get_opcode_data_address);
        match access_mode {
            MemoryAccessMode::Implied => 0,
            MemoryAccessMode::Immediate => index,
            MemoryAccessMode::Accumulator => self.register_a as u16,
            MemoryAccessMode::ZeroPage => {
                let operand = self.bus.read_memory_u8(index);
                operand as u16
            },
            MemoryAccessMode::ZeroPageX => {
                let operand = self.bus.read_memory_u8(index);
                operand.wrapping_add(self.register_x) as u16
            },
            MemoryAccessMode::ZeroPageY => {
                let operand = self.bus.read_memory_u8(index);
                operand.wrapping_add(self.register_y) as u16
            },
            MemoryAccessMode::Relative(_crossing) => {
                let operand = self.bus.read_memory_u8(index);
                if operand >= 0x80 {
                    0xFF00 + operand as u16
                } else {
                    operand as u16
                }
            },
            MemoryAccessMode::Absolute => self.bus.read_memory_u16(index),
            MemoryAccessMode::AbsoluteX(crossing) => {
                let base = self.bus.read_memory_u16(index);
                let added = base.wrapping_add(self.register_x as u16);
                if read && crossing {
                    self.cross_page(base, added);
                }
                added
            },
            MemoryAccessMode::AbsoluteY(crossing) => {
                let base = self.bus.read_memory_u16(index);
                let added = base.wrapping_add(self.register_y as u16);
                if read && crossing {
                    self.cross_page(base, added);
                }
                added
            },
            MemoryAccessMode::Indirect => {
                let pointer = self.read_pointer(index, index.wrapping_add(1));
                if pointer % 256 == 0xFF {
                    self.read_pointer(pointer, (pointer / 256) * 256)
                } else {
                    self.read_pointer(pointer, pointer.wrapping_add(1))
                }
            },
            MemoryAccessMode::IndirectX => {
                let operand = self.bus.read_memory_u8(index);
                let pointer = operand.wrapping_add(self.register_x);
                self.read_pointer(pointer as u16, pointer.wrapping_add(1) as u16)
            },
            MemoryAccessMode::IndirectY(crossing) => {
                let pointer = self.bus.read_memory_u8(index);
                let base = self.read_pointer(pointer as u16, pointer.wrapping_add(1) as u16);
                let added = base.wrapping_add(self.register_y as u16);
                if read && crossing {
                    self.cross_page(base, added);
                }
                added
            },
        }
    }

    fn fetch_operand(&mut self, index: u16, access_mode: MemoryAccessMode, read: bool) -> (value:
        u8)
        requires
            old(self)@.wf(),
        ensures
            (final(self)@, value) == old(self)@.fetch_operand(index, access_mode, read),
            final(self)@.wf(),
            old(self)@.bus.ppu.precedes(final(self)@.bus.ppu),
    {
        reveal(CpuView::fetch_operand);
        match access_mode {
            MemoryAccessMode::Accumulator => self.register_a,
            MemoryAccessMode::Immediate => self.bus.read_memory_u8(self.program_pointer),
            _ => {
                let address = self.get_opcode_data_address(index, access_mode, read);
                self.bus.read_memory_u8(address)
            },
        }
    }

    /// As [`Self::read_opcode_data`], but never paying for a page crossing.
    pub fn read_for_trace(&mut self, index: u16, access_mode: MemoryAccessMode) -> (value: u8)
        requires
            old(self)@.wf(),
        ensures
            (final(self)@, value) == old(self)@.read_for_trace(index, access_mode),
            final(self)@.wf(),
            old(self)@.bus.ppu.precedes(final(self)@.bus.ppu),
    {
        self.fetch_operand(index, access_mode, false)
    }

    /// The operand of an instruction that reads it, and the machine after the
    /// fetch.
    pub fn read_opcode_data(&mut self, index: u16, access_mode: MemoryAccessMode) -> (value: u8)
        requires
            old(self)@.wf(),
        ensures
            (final(self)@, value) == old(self)@.read_opcode_data(index, access_mode),
            final(self)@.wf(),
            old(self)@.bus.ppu.precedes(final(self)@.bus.ppu),
    {
        self.fetch_operand(index, access_mode, true)
    }

    /// The machine after a result was stored where the mode says: nowhere
    /// in implied mode, in the accumulator (with zero and negative
    /// following) in accumulator mode, at the program counter in immediate
    /// mode, else at the effective address, found once more and without
    /// paying for a page crossing.
    pub fn write_opcode_result(&mut self, index: u16, value: u8, access_mode: MemoryAccessMode)
        requires
            old(self)@.wf(),
        ensures
            final(self)@ == old(self)@.write_opcode_result(index, value, access_mode),
            final(self)@.wf(),
            old(self)@.bus.ppu.precedes(final(self)@.bus.ppu),
    {
        reveal(CpuView::write_opcode_result);
        match access_mode {
            MemoryAccessMode::Implied => {},
            MemoryAccessMode::Accumulator => {
                self.set_register_a(value);
            },
            MemoryAccessMode::Immediate => {
                self.bus.write_memory_u8(self.program_pointer, value);
            },
            _ => {
                let address = self.get_opcode_data_address(index, access_mode, false);
                self.bus.write_memory_u8(address, value);
            },
        }
    }

    // ---- status ----

    fn set_flag(&mut self, flag: u8, on: bool)
        ensures
            final(self)@ == old(self)@.set_flag(flag, on),
    {
        self.status.set(flag, on);
    }

    /// Sets carry.
    pub fn set_carry_status(&mut self)
        ensures
            final(self)@ == old(self)@.set_flag(StatusFlags::CARRY, true),
    {
        self.status.insert(StatusFlags::CARRY);
    }

    /// Clears carry.
    pub fn clear_carry_status(&mut self)
        ensures
            final(self)@ == old(self)@.set_flag(StatusFlags::CARRY, false),
    {
        self.status.remove(StatusFlags::CARRY);
    }

    /// Sets zero.
    pub fn set_zero_status(&mut self)
        ensures
            final(self)@ == old(self)@.set_flag(StatusFlags::ZERO, true),
    {
        self.status.insert(StatusFlags::ZERO);
    }

    /// Clears zero.
    pub fn clear_zero_status(&mut self)
        ensures
            final(self)@ == old(self)@.set_flag(StatusFlags::ZERO, false),
    {
        self.status.remove(StatusFlags::ZERO);
    }

    /// Sets interrupt disable.
    pub fn set_interrupt_disable_status(&mut self)
        ensures
            final(self)@ == old(self)@.set_flag(StatusFlags::INTERRUPT_DISABLE, true),
    {
        self.status.insert(StatusFlags::INTERRUPT_DISABLE);
    }

    /// Clears interrupt disable.
    pub fn clear_interrupt_disable_status(&mut self)
        ensures
            final(self)@ == old(self)@.set_flag(StatusFlags::INTERRUPT_DISABLE, false),
    {
        self.status.remove(StatusFlags::INTERRUPT_DISABLE);
    }

    /// Sets decimal mode.
    pub fn set_decimal_mode_status(&mut self)
        ensures
            final(self)@ == old(self)@.set_flag(StatusFlags::DECIMAL_MODE, true),
    {
        self.status.insert(StatusFlags::DECIMAL_MODE);
    }

    /// Clears decimal mode.
    pub fn clear_decimal_mode_status(&mut self)
        ensures
            final(self)@ == old(self)@.set_flag(StatusFlags::DECIMAL_MODE, false),
    {
        self.status.remove(StatusFlags::DECIMAL_MODE);
    }

    /// Sets break.
    pub fn set_break_status(&mut self)
        ensures
            final(self)@ == old(self)@.set_flag(StatusFlags::BREAK, true),
    {
        self.status.insert(StatusFlags::BREAK);
    }

    /// Clears break.
    pub fn clear_break_status(&mut self)
        ensures
            final(self)@ == old(self)@.set_flag(StatusFlags::BREAK, false),
    {
        self.status.remove(StatusFlags::BREAK);
    }

    /// Sets the unused flag.
    pub fn set_unused_status(&mut self)
        ensures
            final(self)@ == old(self)@.set_flag(StatusFlags::UNUSED, true),
    {
        self.status.insert(StatusFlags::UNUSED);
    }

    /// Clears the unused flag.
    pub fn clear_unused_status(&mut self)
        ensures
            final(self)@ == old(self)@.set_flag(StatusFlags::UNUSED, false),
    {
        self.status.remove(StatusFlags::UNUSED);
    }

    /// Sets overflow.
    pub fn set_overflow_status(&mut self)
        ensures
            final(self)@ == old(self)@.set_flag(StatusFlags::OVERFLOW, true),
    {
        self.status.insert(StatusFlags::OVERFLOW);
    }

    /// Clears overflow.
    pub fn clear_overflow_status(&mut self)
        ensures
            final(self)@ == old(self)@.set_flag(StatusFlags::OVERFLOW, false),
    {
        self.status.remove(StatusFlags::OVERFLOW);
    }

    /// Sets negative.
    pub fn set_negative_status(&mut self)
        ensures
            final(self)@ == old(self)@.set_flag(StatusFlags::NEGATIVE, true),
    {
        self.status.insert(StatusFlags::NEGATIVE);
    }

    /// Clears negative.
    pub fn clear_negative_status(&mut self)
        ensures
            final(self)@ == old(self)@.set_flag(StatusFlags::NEGATIVE, false),
    {
        self.status.remove(StatusFlags::NEGATIVE);
    }

    /// Negative follows bit 7 of the result.
    pub fn update_negative_status(&mut self, result: u8)
        ensures
            final(self)@ == old(self)@.update_negative_status(result),
    {
        if result >= 0x80 {
            self.set_negative_status();
        } else {
            self.clear_negative_status();
        }
    }

    /// Zero says whether the result is 0.
    pub fn update_zero_status(&mut self, result: u8)
        ensures
            final(self)@ == old(self)@.update_zero_status(result),
    {
        if result == 0 {
            self.set_zero_status();
        } else {
            self.clear_zero_status();
        }
    }

    /// The machine with negative and zero following a result.
    pub fn update_status(&mut self, result: u8)
        ensures
            final(self)@ == old(self)@.update_status(result),
    {
        self.update_negative_status(result);
        self.update_zero_status(result);
    }

    // ---- registers ----

    /// The machine with the accumulator loaded, and negative and zero
    /// following it.
    pub fn set_register_a(&mut self, value: u8)
        ensures
            final(self)@ == old(self)@.set_register_a(value),
    {
        self.register_a = value;
        self.update_status(value);
    }

    /// The machine with `value` ored into the accumulator.
    pub fn or_register_a(&mut self, value: u8)
        ensures
            final(self)@ == old(self)@.or_register_a(value),
    {
        let result = self.register_a | value;
        self.set_register_a(result);
    }

    /// The machine with `value` anded into the accumulator.
    pub fn and_register_a(&mut self, value: u8)
        ensures
            final(self)@ == old(self)@.and_register_a(value),
    {
        let result = self.register_a & value;
        self.set_register_a(result);
    }

    /// The machine with `value` exclusive-ored into the accumulator.
    pub fn xor_register_a(&mut self, value: u8)
        ensures
            final(self)@ == old(self)@.xor_register_a(value),
    {
        let result = self.register_a ^ value;
        self.set_register_a(result);
    }

    /// The machine with X loaded, and negative and zero following it.
    pub fn set_register_x(&mut self, value: u8)
        ensures
            final(self)@ == old(self)@.set_register_x(value),
    {
        self.register_x = value;
        self.update_status(value);
    }

    /// The machine with Y loaded, and negative and zero following it.
    pub fn set_register_y(&mut self, value: u8)
        ensures
            final(self)@ == old(self)@.set_register_y(value),
    {
        self.register_y = value;
        self.update_status(value);
    }

    /// The machine after `value` and the carry were added to the
    /// accumulator. Carry says that the sum left eight bits; overflow says
    /// that both operands differ in sign from the result.
    pub fn add_to_register_a(&mut self, value: u8)
        ensures
            final(self)@ == old(self)@.add_to_register_a(value),
    {
        let carry_in: u16 = if self.status.contains(StatusFlags::CARRY) {
            1
        } else {
            0
        };
        let sum: u16 = self.register_a as u16 + value as u16 + carry_in;
        let result = (sum % 256) as u8;
        self.set_flag(StatusFlags::CARRY, sum > 255);
        self.set_flag(
            StatusFlags::OVERFLOW,
            (self.register_a ^ result) & (value ^ result) & 0x80 != 0,
        );
        self.set_register_a(result);
    }

    /// Subtraction is addition of the complement.
    pub fn sub_from_register_a(&mut self, value: u8)
        ensures
            final(self)@ == old(self)@.sub_from_register_a(value),
    {
        self.add_to_register_a(value ^ 0xFF);
    }

    // ---- stack ----

    /// A push stores at the stack pointer and then moves it down.
    pub fn push_stack_u8(&mut self, value: u8)
        requires
            old(self)@.wf(),
        ensures
            final(self)@ == old(self)@.push_stack_u8(value),
            final(self)@.wf(),
            old(self)@.bus.ppu.precedes(final(self)@.bus.ppu),
    {
        self.bus.write_memory_u8(STACK_PAGE_START + self.stack_pointer as u16, value);
        self.stack_pointer = self.stack_pointer.wrapping_sub(1);
    }

    /// A 16-bit push stores the high byte first.
    pub fn push_stack_u16(&mut self, value: u16)
        requires
            old(self)@.wf(),
        ensures
            final(self)@ == old(self)@.push_stack_u16(value),
            final(self)@.wf(),
            old(self)@.bus.ppu.precedes(final(self)@.bus.ppu),
    {
        self.push_stack_u8((value / 256) as u8);
        self.push_stack_u8((value % 256) as u8);
    }

    /// A pull moves the stack pointer up and then reads at it.
    pub fn pop_stack_u8(&mut self) -> (value: u8)
        requires
            old(self)@.wf(),
        ensures
            (final(self)@, value) == old(self)@.pop_stack_u8(),
            final(self)@.wf(),
            old(self)@.bus.ppu.precedes(final(self)@.bus.ppu),
    {
        self.stack_pointer = self.stack_pointer.wrapping_add(1);
        self.bus.read_memory_u8(STACK_PAGE_START + self.stack_pointer as u16)
    }

    /// A 16-bit pull reads the low byte first.
    pub fn pop_stack_u16(&mut self) -> (value: u16)
        requires
            old(self)@.wf(),
        ensures
            (final(self)@, value) == old(self)@.pop_stack_u16(),
            final(self)@.wf(),
            old(self)@.bus.ppu.precedes(final(self)@.bus.ppu),
    {
        let low = self.pop_stack_u8();
        let high = self.pop_stack_u8();
        (high as u16) * 256 + low as u16
    }

    // ---- interrupts ----

    /// The machine after an interrupt was taken: the program counter is
    /// pushed; then the status, with break set for the software interrupt
    /// and cleared for the others, and unused set; then interrupts are
    /// disabled, the interrupt's cycles pass, and the program counter is
    /// loaded from the interrupt's vector.
    pub fn interrupt(&mut self, interrupt: CpuInterrupt)
        requires
            old(self)@.wf(),
        ensures
            final(self)@ == old(self)@.interrupt(interrupt),
            final(self)@.wf(),
            old(self)@.bus.ppu.precedes(final(self)@.bus.ppu),
            interrupt.cycles >= 1 ==> old(self)@.bus.ppu.strictly_precedes(final(self)@.bus.ppu),
    {
        reveal(CpuView::interrupt);
        self.push_stack_u16(self.program_pointer);
        match interrupt.interrupt_type {
            InterruptType::BRK => {
                self.set_flag(StatusFlags::BREAK, true);
            },
            _ => {
                self.set_flag(StatusFlags::BREAK, false);
            },
        }
        self.set_flag(StatusFlags::UNUSED, true);
        self.push_stack_u8(self.status.bits());
        self.set_flag(StatusFlags::INTERRUPT_DISABLE, true);
        self.bus.tick(interrupt.cycles);
        self.program_pointer = self.bus.read_memory_u16(interrupt.vector_addr);
    }
}

impl CpuView {
    /// Whether [`MemoryAccessMode::map_address`] maps the mode: the modes
    /// whose operand is found without reading memory, and the relative and
    /// absolute modes.
    pub open spec fn maps_without_memory(access_mode: MemoryAccessMode) -> bool {
        match access_mode {
            MemoryAccessMode::AbsoluteX(_) => false,
            MemoryAccessMode::AbsoluteY(_) => false,
            MemoryAccessMode::Indirect => false,
            MemoryAccessMode::IndirectX => false,
            MemoryAccessMode::IndirectY(_) => false,
            _ => true,
        }
    }

    /// Where an operand byte `address` leads without a look at memory, and
    /// the machine after it: the program counter itself in implied mode,
    /// the byte after it in immediate mode, the accumulator's value in
    /// accumulator mode, the zero-page place (indexed with wrap-around
    /// where the mode indexes) in the zero-page modes, the byte before the
    /// program counter in relative mode, at the price of a cycle where the
    /// mode is flagged, and 0 in absolute mode.
    pub open spec fn map_address(self, access_mode: MemoryAccessMode, address: u16) -> (
        CpuView,
        u16,
    ) {
        match access_mode {
            MemoryAccessMode::Implied => (self, self.program_pointer),
            MemoryAccessMode::Immediate => (self, self.program_pointer.wrapping_add(1)),
            MemoryAccessMode::Accumulator => (self, self.register_a as u16),
            MemoryAccessMode::ZeroPage => (self, address),
            MemoryAccessMode::ZeroPageX => (
                self,
                ((address % 256) as u8).wrapping_add(self.register_x) as u16,
            ),
            MemoryAccessMode::ZeroPageY => (
                self,
                ((address % 256) as u8).wrapping_add(self.register_y) as u16,
            ),
            MemoryAccessMode::Relative(crossed_page) => (
                if crossed_page {
                    self.bus_tick(1)
                } else {
                    self
                },
                self.program_pointer.wrapping_sub(1),
            ),
            _ => (self, 0),
        }
    }
}

impl MemoryAccessMode {
    /// Maps an operand byte to a place without reading memory. The indexed
    /// absolute modes and the indirect modes cannot be mapped so.
    pub fn map_address(&self, cpu: &mut CPU, address: u16) -> (mapped: u16)
        requires
            old(cpu)@.wf(),
            CpuView::maps_without_memory(*self),
        ensures
            (final(cpu)@, mapped) == old(cpu)@.map_address(*self, address),
            final(cpu)@.wf(),
    {
        match *self {
            MemoryAccessMode::Implied => cpu.program_pointer,
            MemoryAccessMode::Immediate => cpu.program_pointer.wrapping_add(1),
            MemoryAccessMode::Accumulator => cpu.register_a as u16,
            MemoryAccessMode::ZeroPage => address,
            MemoryAccessMode::ZeroPageX => ((address % 256) as u8).wrapping_add(
                cpu.register_x,
            ) as u16,
            MemoryAccessMode::ZeroPageY => ((address % 256) as u8).wrapping_add(
                cpu.register_y,
            ) as u16,
            MemoryAccessMode::Relative(crossed_page) => {
                let result = cpu.program_pointer.wrapping_sub(1);
                if crossed_page {
                    cpu.bus.tick(1);
                }
                result
            },
            _ => 0,
        }
    }
}

/// Turning every bit of a byte over gives 255 less the byte.
proof fn lemma_complement(value: u8)
    by (bit_vector)
    ensures
        value ^ 0xFF == 255 - value,
{
}

/// The value of a byte read as a signed number.
pub open spec fn signed(value: u8) -> int {
    if value >= 0x80 {
        value - 256
    } else {
        value as int
    }
}

/// The overflow test of an addition, that both operands differ in sign
/// from the result, says that the sum of the operands as signed numbers,
/// and the carry, is no signed byte.
proof fn lemma_overflow_test(a: u8, v: u8, c: u8)
    by (bit_vector)
    requires
        c <= 1,
    ensures
        ({
            let r = ((a as u16 + v as u16 + c as u16) % 256) as u8;
            let sa: i16 = if a >= 0x80 {
                (a as i16 - 256) as i16
            } else {
                a as i16
            };
            let sv: i16 = if v >= 0x80 {
                (v as i16 - 256) as i16
            } else {
                v as i16
            };
            let sc: i16 = c as i16;
            ((a ^ r) & (v ^ r) & 0x80 != 0) == ((sa + sv + sc) > 127 || (sa + sv + sc) < -128)
        }),
{
}

/// After an addition overflow says that the signed sum of accumulator,
/// operand and carry does not fit in a signed byte.
pub proof fn lemma_add_overflow(cpu: CpuView, value: u8)
    ensures
        ({
            let carry: int = if cpu.status.contains(StatusFlags::CARRY) {
                1
            } else {
                0
            };
            let sum = signed(cpu.register_a) + signed(value) + carry;
            cpu.add_to_register_a(value).status.contains(StatusFlags::OVERFLOW) == (sum > 127
                || sum < -128)
        }),
{
    let carry: u8 = if cpu.status.contains(StatusFlags::CARRY) {
        1
    } else {
        0
    };
    lemma_overflow_test(cpu.register_a, value, carry);
    lemma_add_with_carry(cpu, value, StatusFlags::UNUSED);
}

/// What an addition leaves: the accumulator holds the low eight bits of
/// accumulator plus operand plus carry; carry says that the sum left eight
/// bits; zero and negative follow the result; overflow says that both
/// operands differ in sign from the result. The other four flags and the
/// rest of the machine stay.
pub proof fn lemma_add_with_carry(cpu: CpuView, value: u8, other: u8)
    requires
        other == StatusFlags::INTERRUPT_DISABLE || other == StatusFlags::DECIMAL_MODE || other
            == StatusFlags::BREAK || other == StatusFlags::UNUSED,
    ensures
        ({
            let sum = cpu.register_a + value + if cpu.status.contains(StatusFlags::CARRY) {
                1int
            } else {
                0int
            };
            let result = (sum % 256) as u8;
            let after = cpu.add_to_register_a(value);
            &&& after.register_a == result
            &&& after.status.contains(StatusFlags::CARRY) == (sum > 255)
            &&& after.status.contains(StatusFlags::ZERO) == (result == 0)
            &&& after.status.contains(StatusFlags::NEGATIVE) == (result >= 0x80)
            &&& after.status.contains(StatusFlags::OVERFLOW) == ((cpu.register_a ^ result) & (
            value ^ result) & 0x80 != 0)
            &&& after.status.contains(other) == cpu.status.contains(other)
            &&& after == (CpuView { register_a: result, status: after.status, ..cpu })
        }),
{
    let sum = cpu.register_a + value + if cpu.status.contains(StatusFlags::CARRY) {
        1int
    } else {
        0int
    };
    let result = (sum % 256) as u8;
    let overflow = (cpu.register_a ^ result) & (value ^ result) & 0x80 != 0;
    let s0 = cpu.status;
    let s1 = s0.spec_set(StatusFlags::CARRY, sum > 255);
    let s2 = s1.spec_set(StatusFlags::OVERFLOW, overflow);
    let s3 = s2.spec_set(StatusFlags::NEGATIVE, result >= 0x80);
    let s4 = s3.spec_set(StatusFlags::ZERO, result == 0);
    assert(cpu.add_to_register_a(value).status == s4);
    lemma_set_then_contains(s0, StatusFlags::CARRY, sum > 255, other);
    lemma_set_then_contains(s1, StatusFlags::OVERFLOW, overflow, StatusFlags::CARRY);
    lemma_set_then_contains(s1, StatusFlags::OVERFLOW, overflow, other);
    lemma_set_then_contains(s2, StatusFlags::NEGATIVE, result >= 0x80, StatusFlags::CARRY);
    lemma_set_then_contains(s2, StatusFlags::NEGATIVE, result >= 0x80, StatusFlags::OVERFLOW);
    lemma_set_then_contains(s2, StatusFlags::NEGATIVE, result >= 0x80, other);
    lemma_set_then_contains(s3, StatusFlags::ZERO, result == 0, StatusFlags::CARRY);
    lemma_set_then_contains(s3, StatusFlags::ZERO, result == 0, StatusFlags::OVERFLOW);
    lemma_set_then_contains(s3, StatusFlags::ZERO, result == 0, StatusFlags::NEGATIVE);
    lemma_set_then_contains(s3, StatusFlags::ZERO, result == 0, other);
}

/// What a subtraction leaves: the accumulator holds the low eight bits of
/// accumulator less operand less borrow, where the borrow is the carry
/// turned over; carry says that nothing had to be borrowed.
pub proof fn lemma_subtract_with_borrow(cpu: CpuView, value: u8)
    ensures
        ({
            let borrow: int = if cpu.status.contains(StatusFlags::CARRY) {
                0
            } else {
                1
            };
            let difference = cpu.register_a - value - borrow;
            let after = cpu.sub_from_register_a(value);
            &&& after.register_a == difference % 256
            &&& after.status.contains(StatusFlags::CARRY) == (difference >= 0)
            &&& after.status.contains(StatusFlags::ZERO) == (difference % 256 == 0)
            &&& after.status.contains(StatusFlags::NEGATIVE) == (difference % 256 >= 0x80)
        }),
{
    lemma_complement(value);
    lemma_add_with_carry(cpu, complement(value), StatusFlags::UNUSED);
}

/// What a push does: the byte goes to the stack page of work RAM, at the
/// stack pointer, and the stack pointer moves down by one, wrapping within
/// the page.
pub proof fn lemma_push(cpu: CpuView, value: u8)
    ensures
        cpu.push_stack_u8(value) == (CpuView {
            stack_pointer: cpu.stack_pointer.wrapping_sub(1),
            bus: BusView {
                cpu_memory: spec_array_update(
                    cpu.bus.cpu_memory,
                    0x100 + cpu.stack_pointer,
                    value,
                ),
                ..cpu.bus
            },
            ..cpu
        }),
{
    lemma_ram_access(cpu.bus, cpu.stack_address(), value);
}

/// What a pull does: the stack pointer moves up by one, wrapping within
/// the page, and the byte it then points at is read from work RAM.
pub proof fn lemma_pop(cpu: CpuView)
    ensures
        cpu.pop_stack_u8().0 == (CpuView {
            stack_pointer: cpu.stack_pointer.wrapping_add(1),
            ..cpu
        }),
        cpu.pop_stack_u8().1 == cpu.bus.cpu_memory[0x100 + cpu.stack_pointer.wrapping_add(1)],
{
    lemma_ram_access(cpu.bus, (STACK_PAGE_START + cpu.stack_pointer.wrapping_add(1)) as u16, 0);
}

/// A byte that was pushed is the byte that the next pull gives, and the
/// pull leaves the stack pointer where it was before the push; of the
/// whole machine only the pushed byte's place in work RAM has changed.
pub proof fn lemma_push_then_pop(cpu: CpuView, value: u8)
    ensures
        cpu.push_stack_u8(value).pop_stack_u8().1 == value,
        cpu.push_stack_u8(value).pop_stack_u8().0.stack_pointer == cpu.stack_pointer,
        cpu.push_stack_u8(value).pop_stack_u8().0 == (CpuView {
            bus: cpu.bus.write(cpu.stack_address(), value),
            ..cpu
        }),
{
    lemma_push(cpu, value);
    lemma_pop(cpu.push_stack_u8(value));
    lemma_ram_access(cpu.bus, cpu.stack_address(), value);
}

/// A 16-bit value that was pushed is the value that the next 16-bit pull
/// gives, and the pull leaves the stack pointer where it was.
pub proof fn lemma_push_then_pop_u16(cpu: CpuView, value: u16)
    ensures
        cpu.push_stack_u16(value).pop_stack_u16().1 == value,
        cpu.push_stack_u16(value).pop_stack_u16().0.stack_pointer == cpu.stack_pointer,
{
    let high = cpu.push_stack_u8((value / 256) as u8);
    lemma_push(cpu, (value / 256) as u8);
    lemma_push(high, (value % 256) as u8);
    let both = high.push_stack_u8((value % 256) as u8);
    lemma_pop(both);
    lemma_pop(both.pop_stack_u8().0);
}

} // verus!
