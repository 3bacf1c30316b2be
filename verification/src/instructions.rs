//! The instructions: what each does to the machine.

use vstd::prelude::*;
use crate::addressing::MemoryAccessMode;
use crate::cpu::{CpuInterrupt, CpuView, StatusFlags, CPU};
use crate::opcode::Opcode;

verus! {

/// A byte moved one place to the left, its top bit dropped.
pub open spec fn shift_left(value: u8) -> u8 {
    ((value % 128) * 2) as u8
}

/// The high byte of an address.
pub open spec fn high_byte(address: u16) -> u8 {
    (address / 256) as u8
}

impl CpuView {
    /// Loads the accumulator.
    #[verifier::opaque]
    pub open spec fn lda(self, memory_mode: MemoryAccessMode) -> CpuView {
        let (cpu, operand) = self.read_opcode_data(self.program_pointer, memory_mode);
        cpu.set_register_a(operand)
    }

    /// Loads X.
    #[verifier::opaque]
    pub open spec fn ldx(self, memory_mode: MemoryAccessMode) -> CpuView {
        let (cpu, operand) = self.read_opcode_data(self.program_pointer, memory_mode);
        cpu.set_register_x(operand)
    }

    /// Loads Y.
    #[verifier::opaque]
    pub open spec fn ldy(self, memory_mode: MemoryAccessMode) -> CpuView {
        let (cpu, operand) = self.read_opcode_data(self.program_pointer, memory_mode);
        cpu.set_register_y(operand)
    }

    /// Adds the operand and the carry to the accumulator.
    #[verifier::opaque]
    pub open spec fn adc(self, memory_mode: MemoryAccessMode) -> CpuView {
        let (cpu, operand) = self.read_opcode_data(self.program_pointer, memory_mode);
        cpu.add_to_register_a(operand)
    }

    /// Subtracts the operand and the borrow from the accumulator.
    #[verifier::opaque]
    pub open spec fn sbc(self, memory_mode: MemoryAccessMode) -> CpuView {
        let (cpu, operand) = self.read_opcode_data(self.program_pointer, memory_mode);
        cpu.sub_from_register_a(operand)
    }

    /// Ands the operand into the accumulator.
    #[verifier::opaque]
    pub open spec fn and(self, memory_mode: MemoryAccessMode) -> CpuView {
        let (cpu, operand) = self.read_opcode_data(self.program_pointer, memory_mode);
        cpu.and_register_a(operand)
    }

    /// Exclusive-ors the operand into the accumulator.
    #[verifier::opaque]
    pub open spec fn eor(self, memory_mode: MemoryAccessMode) -> CpuView {
        let (cpu, operand) = self.read_opcode_data(self.program_pointer, memory_mode);
        cpu.xor_register_a(operand)
    }

    /// Ors the operand into the accumulator.
    #[verifier::opaque]
    pub open spec fn ora(self, memory_mode: MemoryAccessMode) -> CpuView {
        let (cpu, operand) = self.read_opcode_data(self.program_pointer, memory_mode);
        cpu.or_register_a(operand)
    }

    /// Stores the accumulator.
    #[verifier::opaque]
    pub open spec fn sta(self, memory_mode: MemoryAccessMode) -> CpuView {
        self.write_opcode_result(self.program_pointer, self.register_a, memory_mode)
    }

    /// Stores X.
    #[verifier::opaque]
    pub open spec fn stx(self, memory_mode: MemoryAccessMode) -> CpuView {
        self.write_opcode_result(self.program_pointer, self.register_x, memory_mode)
    }

    /// Stores Y.
    #[verifier::opaque]
    pub open spec fn sty(self, memory_mode: MemoryAccessMode) -> CpuView {
        self.write_opcode_result(self.program_pointer, self.register_y, memory_mode)
    }

    /// Copies the accumulator to X.
    #[verifier::opaque]
    pub open spec fn tax(self, memory_mode: MemoryAccessMode) -> CpuView {
        self.set_register_x(self.register_a)
    }

    /// Copies the accumulator to Y.
    #[verifier::opaque]
    pub open spec fn tay(self, memory_mode: MemoryAccessMode) -> CpuView {
        self.set_register_y(self.register_a)
    }

    /// Copies the stack pointer to X.
    #[verifier::opaque]
    pub open spec fn tsx(self, memory_mode: MemoryAccessMode) -> CpuView {
        self.set_register_x(self.stack_pointer)
    }

    /// Copies X to the accumulator.
    #[verifier::opaque]
    pub open spec fn txa(self, memory_mode: MemoryAccessMode) -> CpuView {
        self.set_register_a(self.register_x)
    }

    /// Copies Y to the accumulator.
    #[verifier::opaque]
    pub open spec fn tya(self, memory_mode: MemoryAccessMode) -> CpuView {
        self.set_register_a(self.register_y)
    }

    /// Copies X to the stack pointer; no flag follows.
    #[verifier::opaque]
    pub open spec fn txs(self, memory_mode: MemoryAccessMode) -> CpuView {
        CpuView { stack_pointer: self.register_x, ..self }
    }

    /// Counts X down by one, wrapping.
    #[verifier::opaque]
    pub open spec fn dex(self, memory_mode: MemoryAccessMode) -> CpuView {
        CpuView { register_x: self.register_x.wrapping_sub(1), ..self }.update_status(self.register_x.wrapping_sub(1))
    }

    /// Counts Y down by one, wrapping.
    #[verifier::opaque]
    pub open spec fn dey(self, memory_mode: MemoryAccessMode) -> CpuView {
        CpuView { register_y: self.register_y.wrapping_sub(1), ..self }.update_status(self.register_y.wrapping_sub(1))
    }

    /// Counts X up by one, wrapping.
    #[verifier::opaque]
    pub open spec fn inx(self, memory_mode: MemoryAccessMode) -> CpuView {
        CpuView { register_x: self.register_x.wrapping_add(1), ..self }.update_status(self.register_x.wrapping_add(1))
    }

    /// Counts Y up by one, wrapping.
    #[verifier::opaque]
    pub open spec fn iny(self, memory_mode: MemoryAccessMode) -> CpuView {
        CpuView { register_y: self.register_y.wrapping_add(1), ..self }.update_status(self.register_y.wrapping_add(1))
    }

    /// Counts the operand down by one in place, wrapping.
    #[verifier::opaque]
    pub open spec fn dec(self, memory_mode: MemoryAccessMode) -> CpuView {
        let (cpu, operand) = self.read_opcode_data(self.program_pointer, memory_mode);
        let result = operand.wrapping_sub(1);
        cpu.update_status(result).write_opcode_result(cpu.program_pointer, result, memory_mode)
    }

    /// Counts the operand up by one in place, wrapping; gives the new value.
    #[verifier::opaque]
    pub open spec fn inc(self, memory_mode: MemoryAccessMode) -> (CpuView, u8) {
        let (cpu, operand) = self.read_opcode_data(self.program_pointer, memory_mode);
        let result = operand.wrapping_add(1);
        (
            cpu.update_status(result).write_opcode_result(cpu.program_pointer, result, memory_mode),
            result,
        )
    }

    /// Shifts the operand left in place; carry takes the bit shifted out.
    #[verifier::opaque]
    pub open spec fn asl(self, memory_mode: MemoryAccessMode) -> (CpuView, u8) {
        let (cpu, operand) = self.read_opcode_data(self.program_pointer, memory_mode);
        let result: u8 = shift_left(operand);
        (
            cpu.set_flag(StatusFlags::CARRY, operand >= 0x80).write_opcode_result(
                cpu.program_pointer,
                result,
                memory_mode,
            ).update_status(result),
            result,
        )
    }

    /// Shifts the operand right in place; carry takes the bit shifted out.
    #[verifier::opaque]
    pub open spec fn lsr(self, memory_mode: MemoryAccessMode) -> (CpuView, u8) {
        let (cpu, operand) = self.read_opcode_data(self.program_pointer, memory_mode);
        let result: u8 = operand / 2;
        (
            cpu.set_flag(StatusFlags::CARRY, operand % 2 == 1).write_opcode_result(
                cpu.program_pointer,
                result,
                memory_mode,
            ).update_status(result),
            result,
        )
    }

    /// Rotates the operand left through the carry, in place.
    #[verifier::opaque]
    pub open spec fn rol(self, memory_mode: MemoryAccessMode) -> (CpuView, u8) {
        let (cpu, operand) = self.read_opcode_data(self.program_pointer, memory_mode);
        let result: u8 = if cpu.status.contains(StatusFlags::CARRY) {
            (shift_left(operand) + 1) as u8
        } else {
            shift_left(operand)
        };
        (
            cpu.set_flag(StatusFlags::CARRY, operand >= 0x80).write_opcode_result(
                cpu.program_pointer,
                result,
                memory_mode,
            ).update_status(result),
            result,
        )
    }

    /// Rotates the operand right through the carry, in place.
    #[verifier::opaque]
    pub open spec fn ror(self, memory_mode: MemoryAccessMode) -> (CpuView, u8) {
        let (cpu, operand) = self.read_opcode_data(self.program_pointer, memory_mode);
        let result: u8 = if cpu.status.contains(StatusFlags::CARRY) {
            (operand / 2 + 0x80) as u8
        } else {
            operand / 2
        };
        (
            cpu.set_flag(StatusFlags::CARRY, operand % 2 == 1).write_opcode_result(
                cpu.program_pointer,
                result,
                memory_mode,
            ).update_status(result),
            result,
        )
    }

    /// Tests the operand against the accumulator: zero says that they share no bit; negative and overflow copy bits 7 and 6 of the operand.
    #[verifier::opaque]
    pub open spec fn bit(self, memory_mode: MemoryAccessMode) -> CpuView {
        let (cpu, operand) = self.read_opcode_data(self.program_pointer, memory_mode);
        cpu.set_flag(StatusFlags::ZERO, cpu.register_a & operand == 0).set_flag(
            StatusFlags::NEGATIVE,
            operand & 0x80 > 0,
        ).set_flag(StatusFlags::OVERFLOW, operand & 0x40 > 0)
    }

    /// Compares a register with the operand: carry says that the register is not below it; zero and negative follow the difference.
    #[verifier::opaque]
    pub open spec fn compare(self, with: u8, memory_mode: MemoryAccessMode) -> CpuView {
        let (cpu, operand) = self.read_opcode_data(self.program_pointer, memory_mode);
        cpu.set_flag(StatusFlags::CARRY, with >= operand).update_status(with.wrapping_sub(operand))
    }

    /// Compares the accumulator.
    #[verifier::opaque]
    pub open spec fn cmp(self, memory_mode: MemoryAccessMode) -> CpuView {
        self.compare(self.register_a, memory_mode)
    }

    /// Compares X.
    #[verifier::opaque]
    pub open spec fn cpx(self, memory_mode: MemoryAccessMode) -> CpuView {
        self.compare(self.register_x, memory_mode)
    }

    /// Compares Y.
    #[verifier::opaque]
    pub open spec fn cpy(self, memory_mode: MemoryAccessMode) -> CpuView {
        self.compare(self.register_y, memory_mode)
    }

    /// Sets carry.
    #[verifier::opaque]
    pub open spec fn sec(self, memory_mode: MemoryAccessMode) -> CpuView {
        self.set_flag(StatusFlags::CARRY, true)
    }

    /// Sets decimal mode.
    #[verifier::opaque]
    pub open spec fn sed(self, memory_mode: MemoryAccessMode) -> CpuView {
        self.set_flag(StatusFlags::DECIMAL_MODE, true)
    }

    /// Disables interrupts.
    #[verifier::opaque]
    pub open spec fn sei(self, memory_mode: MemoryAccessMode) -> CpuView {
        self.set_flag(StatusFlags::INTERRUPT_DISABLE, true)
    }

    /// Clears carry.
    #[verifier::opaque]
    pub open spec fn clc(self, memory_mode: MemoryAccessMode) -> CpuView {
        self.set_flag(StatusFlags::CARRY, false)
    }

    /// Clears decimal mode.
    #[verifier::opaque]
    pub open spec fn cld(self, memory_mode: MemoryAccessMode) -> CpuView {
        self.set_flag(StatusFlags::DECIMAL_MODE, false)
    }

    /// Enables interrupts.
    #[verifier::opaque]
    pub open spec fn cli(self, memory_mode: MemoryAccessMode) -> CpuView {
        self.set_flag(StatusFlags::INTERRUPT_DISABLE, false)
    }

    /// Clears overflow.
    #[verifier::opaque]
    pub open spec fn clv(self, memory_mode: MemoryAccessMode) -> CpuView {
        self.set_flag(StatusFlags::OVERFLOW, false)
    }

    /// Pushes the accumulator.
    #[verifier::opaque]
    pub open spec fn pha(self, memory_mode: MemoryAccessMode) -> CpuView {
        self.push_stack_u8(self.register_a)
    }

    /// Pulls the accumulator.
    #[verifier::opaque]
    pub open spec fn pla(self, memory_mode: MemoryAccessMode) -> CpuView {
        let (cpu, value) = self.pop_stack_u8();
        cpu.set_register_a(value)
    }

    /// Pushes the status with break and unused set; the register itself stays.
    #[verifier::opaque]
    pub open spec fn php(self, memory_mode: MemoryAccessMode) -> CpuView {
        self.push_stack_u8(self.status.spec_insert(StatusFlags::BREAK).spec_insert(StatusFlags::UNUSED).bits)
    }

    /// Pulls the status, with break cleared and unused set.
    #[verifier::opaque]
    pub open spec fn plp(self, memory_mode: MemoryAccessMode) -> CpuView {
        let (cpu, value) = self.pop_stack_u8();
        CpuView {
            status: StatusFlags { bits: value }.spec_remove(StatusFlags::BREAK).spec_insert(
                StatusFlags::UNUSED,
            ),
            ..cpu
        }
    }

    /// Returns from an interrupt: pulls the status, with break cleared and unused set, then the program counter.
    #[verifier::opaque]
    pub open spec fn rti(self, memory_mode: MemoryAccessMode) -> CpuView {
        let (cpu, value) = self.pop_stack_u8();
        let (cpu, counter) = cpu.pop_stack_u16();
        CpuView {
            status: StatusFlags { bits: value }.spec_remove(StatusFlags::BREAK).spec_insert(
                StatusFlags::UNUSED,
            ),
            program_pointer: counter,
            ..cpu
        }
    }

    /// Branches where the condition holds. A taken branch costs a cycle; its
    /// target is the operand, as a signed byte, added to the address after
    /// the operand; one more cycle passes where the target lies in another
    /// page than that address.
    #[verifier::opaque]
    pub open spec fn branch(self, condition: bool, memory_mode: MemoryAccessMode) -> CpuView {
        if condition {
            let (cpu, displacement) = self.bus_tick(1).get_opcode_data_address(
                self.program_pointer,
                memory_mode,
                true,
            );
            let next = cpu.program_pointer.wrapping_add(1);
            let target = next.wrapping_add(displacement);
            CpuView { program_pointer: target, ..cpu.cross_page(next, target) }
        } else {
            self
        }
    }

    /// Branches on carry clear.
    #[verifier::opaque]
    pub open spec fn bcc(self, memory_mode: MemoryAccessMode) -> CpuView {
        self.branch(!self.status.contains(StatusFlags::CARRY), memory_mode)
    }

    /// Branches on carry set.
    #[verifier::opaque]
    pub open spec fn bcs(self, memory_mode: MemoryAccessMode) -> CpuView {
        self.branch(self.status.contains(StatusFlags::CARRY), memory_mode)
    }

    /// Branches on zero set.
    #[verifier::opaque]
    pub open spec fn beq(self, memory_mode: MemoryAccessMode) -> CpuView {
        self.branch(self.status.contains(StatusFlags::ZERO), memory_mode)
    }

    /// Branches on zero clear.
    #[verifier::opaque]
    pub open spec fn bne(self, memory_mode: MemoryAccessMode) -> CpuView {
        self.branch(!self.status.contains(StatusFlags::ZERO), memory_mode)
    }

    /// Branches on negative set.
    #[verifier::opaque]
    pub open spec fn bmi(self, memory_mode: MemoryAccessMode) -> CpuView {
        self.branch(self.status.contains(StatusFlags::NEGATIVE), memory_mode)
    }

    /// Branches on negative clear.
    #[verifier::opaque]
    pub open spec fn bpl(self, memory_mode: MemoryAccessMode) -> CpuView {
        self.branch(!self.status.contains(StatusFlags::NEGATIVE), memory_mode)
    }

    /// Branches on overflow clear.
    #[verifier::opaque]
    pub open spec fn bvc(self, memory_mode: MemoryAccessMode) -> CpuView {
        self.branch(!self.status.contains(StatusFlags::OVERFLOW), memory_mode)
    }

    /// Branches on overflow set.
    #[verifier::opaque]
    pub open spec fn bvs(self, memory_mode: MemoryAccessMode) -> CpuView {
        self.branch(self.status.contains(StatusFlags::OVERFLOW), memory_mode)
    }

    /// Does nothing.
    #[verifier::opaque]
    pub open spec fn nop(self, memory_mode: MemoryAccessMode) -> CpuView {
        self
    }

    /// Reads its operand and drops it.
    #[verifier::opaque]
    pub open spec fn skb(self, memory_mode: MemoryAccessMode) -> CpuView {
        self.read_opcode_data(self.program_pointer, memory_mode).0
    }

    /// Jumps to the effective address.
    #[verifier::opaque]
    pub open spec fn jmp(self, memory_mode: MemoryAccessMode) -> CpuView {
        let (cpu, address) = self.get_opcode_data_address(self.program_pointer, memory_mode, true);
        CpuView { program_pointer: address, ..cpu }
    }

    /// Calls a subroutine: pushes the address of the instruction's last byte and jumps.
    #[verifier::opaque]
    pub open spec fn jsr(self, opcode_metadata: Opcode) -> CpuView {
        let (cpu, address) = self.get_opcode_data_address(
            self.program_pointer,
            opcode_metadata.memory_mode,
            true,
        );
        let saved = cpu.program_pointer.wrapping_add(opcode_metadata.length.wrapping_sub(1) as u16)
            .wrapping_sub(1);
        CpuView { program_pointer: address, ..cpu.push_stack_u16(saved) }
    }

    /// Returns from a subroutine: pulls an address and goes on after it.
    #[verifier::opaque]
    pub open spec fn rts(self, memory_mode: MemoryAccessMode) -> CpuView {
        let (cpu, counter) = self.pop_stack_u16();
        CpuView { program_pointer: counter.wrapping_add(1), ..cpu }
    }

    /// The software interrupt. It skips its padding byte; with interrupts
    /// disabled it does no more, else the interrupt is taken.
    #[verifier::opaque]
    pub open spec fn brk(self) -> CpuView {
        let cpu = CpuView { program_pointer: self.program_pointer.wrapping_add(1), ..self };
        if cpu.status.contains(StatusFlags::INTERRUPT_DISABLE) {
            cpu
        } else {
            cpu.interrupt(CpuInterrupt::brk())
        }
    }

    /// Stores the accumulator and X and the high byte of the effective address, anded together, plus one.
    #[verifier::opaque]
    pub open spec fn axa(self, memory_mode: MemoryAccessMode) -> CpuView {
        let (cpu, address) = self.get_opcode_data_address(self.program_pointer, memory_mode, true);
        cpu.write_opcode_result(
            cpu.program_pointer,
            (cpu.register_a & cpu.register_x & high_byte(address)).wrapping_add(1),
            memory_mode,
        )
    }

    /// Stores Y anded with the high byte of the effective address plus one.
    #[verifier::opaque]
    pub open spec fn say(self, memory_mode: MemoryAccessMode) -> CpuView {
        let (cpu, address) = self.get_opcode_data_address(self.program_pointer, memory_mode, true);
        cpu.write_opcode_result(
            cpu.program_pointer,
            cpu.register_y & high_byte(address).wrapping_add(1),
            memory_mode,
        )
    }

    /// Shifts the operand left in place and ors the result into the accumulator.
    #[verifier::opaque]
    pub open spec fn aso(self, memory_mode: MemoryAccessMode) -> CpuView {
        let (cpu, result) = self.asl(memory_mode);
        cpu.or_register_a(result)
    }

    /// Rotates the operand left in place and ands the result into the accumulator.
    #[verifier::opaque]
    pub open spec fn rla(self, memory_mode: MemoryAccessMode) -> CpuView {
        let (cpu, result) = self.rol(memory_mode);
        cpu.and_register_a(result)
    }

    /// Shifts the operand right in place and exclusive-ors the result into the accumulator.
    #[verifier::opaque]
    pub open spec fn lse(self, memory_mode: MemoryAccessMode) -> CpuView {
        let (cpu, result) = self.lsr(memory_mode);
        cpu.xor_register_a(result)
    }

    /// Rotates the operand right in place and adds the result to the accumulator.
    #[verifier::opaque]
    pub open spec fn rra(self, memory_mode: MemoryAccessMode) -> CpuView {
        let (cpu, result) = self.ror(memory_mode);
        cpu.add_to_register_a(result)
    }

    /// Counts the operand up in place and subtracts the result from the accumulator.
    #[verifier::opaque]
    pub open spec fn ins(self, memory_mode: MemoryAccessMode) -> CpuView {
        let (cpu, result) = self.inc(memory_mode);
        cpu.sub_from_register_a(result)
    }

    /// Stores the accumulator anded with X.
    #[verifier::opaque]
    pub open spec fn axs(self, memory_mode: MemoryAccessMode) -> CpuView {
        self.write_opcode_result(self.program_pointer, self.register_a & self.register_x, memory_mode)
    }

    /// Loads the accumulator and X with the operand.
    #[verifier::opaque]
    pub open spec fn lax(self, memory_mode: MemoryAccessMode) -> CpuView {
        let cpu = self.lda(memory_mode);
        cpu.set_register_x(cpu.register_a)
    }

    /// Counts the operand down in place and compares the accumulator with the result.
    #[verifier::opaque]
    pub open spec fn dcm(self, memory_mode: MemoryAccessMode) -> CpuView {
        let (cpu, operand) = self.read_opcode_data(self.program_pointer, memory_mode);
        let result = operand.wrapping_sub(1);
        let cpu = cpu.write_opcode_result(cpu.program_pointer, result, memory_mode);
        cpu.set_flag(StatusFlags::CARRY, cpu.register_a >= result).update_status(
            cpu.register_a.wrapping_sub(result),
        )
    }
}

impl CPU {
    /// Loads the accumulator.
    pub fn lda(&mut self, memory_mode: MemoryAccessMode)
        requires
            old(self)@.wf(),
        ensures
            final(self)@ == old(self)@.lda(memory_mode),
            final(self)@.wf(),
            old(self)@.bus.ppu.precedes(final(self)@.bus.ppu),
    {
        reveal(CpuView::lda);
        let operand = self.read_opcode_data(self.program_pointer, memory_mode);
        self.set_register_a(operand);
    }

    /// Loads X.
    pub fn ldx(&mut self, memory_mode: MemoryAccessMode)
        requires
            old(self)@.wf(),
        ensures
            final(self)@ == old(self)@.ldx(memory_mode),
            final(self)@.wf(),
            old(self)@.bus.ppu.precedes(final(self)@.bus.ppu),
    {
        reveal(CpuView::ldx);
        let operand = self.read_opcode_data(self.program_pointer, memory_mode);
        self.set_register_x(operand);
    }

    /// Loads Y.
    pub fn ldy(&mut self, memory_mode: MemoryAccessMode)
        requires
            old(self)@.wf(),
        ensures
            final(self)@ == old(self)@.ldy(memory_mode),
            final(self)@.wf(),
            old(self)@.bus.ppu.precedes(final(self)@.bus.ppu),
    {
        reveal(CpuView::ldy);
        let operand = self.read_opcode_data(self.program_pointer, memory_mode);
        self.set_register_y(operand);
    }

    /// Adds the operand and the carry to the accumulator.
    pub fn adc(&mut self, memory_mode: MemoryAccessMode)
        requires
            old(self)@.wf(),
        ensures
            final(self)@ == old(self)@.adc(memory_mode),
            final(self)@.wf(),
            old(self)@.bus.ppu.precedes(final(self)@.bus.ppu),
    {
        reveal(CpuView::adc);
        let operand = self.read_opcode_data(self.program_pointer, memory_mode);
        self.add_to_register_a(operand);
    }

    /// Subtracts the operand and the borrow from the accumulator.
    pub fn sbc(&mut self, memory_mode: MemoryAccessMode)
        requires
            old(self)@.wf(),
        ensures
            final(self)@ == old(self)@.sbc(memory_mode),
            final(self)@.wf(),
            old(self)@.bus.ppu.precedes(final(self)@.bus.ppu),
    {
        reveal(CpuView::sbc);
        let operand = self.read_opcode_data(self.program_pointer, memory_mode);
        self.sub_from_register_a(operand);
    }

    /// Ands the operand into the accumulator.
    pub fn and(&mut self, memory_mode: MemoryAccessMode)
        requires
            old(self)@.wf(),
        ensures
            final(self)@ == old(self)@.and(memory_mode),
            final(self)@.wf(),
            old(self)@.bus.ppu.precedes(final(self)@.bus.ppu),
    {
        reveal(CpuView::and);
        let operand = self.read_opcode_data(self.program_pointer, memory_mode);
        self.and_register_a(operand);
    }

    /// Exclusive-ors the operand into the accumulator.
    pub fn eor(&mut self, memory_mode: MemoryAccessMode)
        requires
            old(self)@.wf(),
        ensures
            final(self)@ == old(self)@.eor(memory_mode),
            final(self)@.wf(),
            old(self)@.bus.ppu.precedes(final(self)@.bus.ppu),
    {
        reveal(CpuView::eor);
        let operand = self.read_opcode_data(self.program_pointer, memory_mode);
        self.xor_register_a(operand);
    }

    /// Ors the operand into the accumulator.
    pub fn ora(&mut self, memory_mode: MemoryAccessMode)
        requires
            old(self)@.wf(),
        ensures
            final(self)@ == old(self)@.ora(memory_mode),
            final(self)@.wf(),
            old(self)@.bus.ppu.precedes(final(self)@.bus.ppu),
    {
        reveal(CpuView::ora);
        let operand = self.read_opcode_data(self.program_pointer, memory_mode);
        self.or_register_a(operand);
    }

    /// Stores the accumulator.
    pub fn sta(&mut self, memory_mode: MemoryAccessMode)
        requires
            old(self)@.wf(),
        ensures
            final(self)@ == old(self)@.sta(memory_mode),
            final(self)@.wf(),
            old(self)@.bus.ppu.precedes(final(self)@.bus.ppu),
    {
        reveal(CpuView::sta);
        self.write_opcode_result(self.program_pointer, self.register_a, memory_mode);
    }

    /// Stores X.
    pub fn stx(&mut self, memory_mode: MemoryAccessMode)
        requires
            old(self)@.wf(),
        ensures
            final(self)@ == old(self)@.stx(memory_mode),
            final(self)@.wf(),
            old(self)@.bus.ppu.precedes(final(self)@.bus.ppu),
    {
        reveal(CpuView::stx);
        self.write_opcode_result(self.program_pointer, self.register_x, memory_mode);
    }

    /// Stores Y.
    pub fn sty(&mut self, memory_mode: MemoryAccessMode)
        requires
            old(self)@.wf(),
        ensures
            final(self)@ == old(self)@.sty(memory_mode),
            final(self)@.wf(),
            old(self)@.bus.ppu.precedes(final(self)@.bus.ppu),
    {
        reveal(CpuView::sty);
        self.write_opcode_result(self.program_pointer, self.register_y, memory_mode);
    }

    /// Copies the accumulator to X.
    pub fn tax(&mut self, memory_mode: MemoryAccessMode)
        requires
            old(self)@.wf(),
        ensures
            final(self)@ == old(self)@.tax(memory_mode),
            final(self)@.wf(),
            old(self)@.bus.ppu.precedes(final(self)@.bus.ppu),
    {
        reveal(CpuView::tax);
        self.set_register_x(self.register_a);
    }

    /// Copies the accumulator to Y.
    pub fn tay(&mut self, memory_mode: MemoryAccessMode)
        requires
            old(self)@.wf(),
        ensures
            final(self)@ == old(self)@.tay(memory_mode),
            final(self)@.wf(),
            old(self)@.bus.ppu.precedes(final(self)@.bus.ppu),
    {
        reveal(CpuView::tay);
        self.set_register_y(self.register_a);
    }

    /// Copies the stack pointer to X.
    pub fn tsx(&mut self, memory_mode: MemoryAccessMode)
        requires
            old(self)@.wf(),
        ensures
            final(self)@ == old(self)@.tsx(memory_mode),
            final(self)@.wf(),
            old(self)@.bus.ppu.precedes(final(self)@.bus.ppu),
    {
        reveal(CpuView::tsx);
        self.set_register_x(self.stack_pointer);
    }

    /// Copies X to the accumulator.
    pub fn txa(&mut self, memory_mode: MemoryAccessMode)
        requires
            old(self)@.wf(),
        ensures
            final(self)@ == old(self)@.txa(memory_mode),
            final(self)@.wf(),
            old(self)@.bus.ppu.precedes(final(self)@.bus.ppu),
    {
        reveal(CpuView::txa);
        self.set_register_a(self.register_x);
    }

    /// Copies Y to the accumulator.
    pub fn tya(&mut self, memory_mode: MemoryAccessMode)
        requires
            old(self)@.wf(),
        ensures
            final(self)@ == old(self)@.tya(memory_mode),
            final(self)@.wf(),
            old(self)@.bus.ppu.precedes(final(self)@.bus.ppu),
    {
        reveal(CpuView::tya);
        self.set_register_a(self.register_y);
    }

    /// Copies X to the stack pointer; no flag follows.
    pub fn txs(&mut self, memory_mode: MemoryAccessMode)
        requires
            old(self)@.wf(),
        ensures
            final(self)@ == old(self)@.txs(memory_mode),
            final(self)@.wf(),
            old(self)@.bus.ppu.precedes(final(self)@.bus.ppu),
    {
        reveal(CpuView::txs);
        self.stack_pointer = self.register_x;
    }

    /// Counts X down by one, wrapping.
    pub fn dex(&mut self, memory_mode: MemoryAccessMode)
        requires
            old(self)@.wf(),
        ensures
            final(self)@ == old(self)@.dex(memory_mode),
            final(self)@.wf(),
            old(self)@.bus.ppu.precedes(final(self)@.bus.ppu),
    {
        reveal(CpuView::dex);
        self.register_x = self.register_x.wrapping_sub(1);
        self.update_status(self.register_x);
    }

    /// Counts Y down by one, wrapping.
    pub fn dey(&mut self, memory_mode: MemoryAccessMode)
        requires
            old(self)@.wf(),
        ensures
            final(self)@ == old(self)@.dey(memory_mode),
            final(self)@.wf(),
            old(self)@.bus.ppu.precedes(final(self)@.bus.ppu),
    {
        reveal(CpuView::dey);
        self.register_y = self.register_y.wrapping_sub(1);
        self.update_status(self.register_y);
    }

    /// Counts X up by one, wrapping.
    pub fn inx(&mut self, memory_mode: MemoryAccessMode)
        requires
            old(self)@.wf(),
        ensures
            final(self)@ == old(self)@.inx(memory_mode),
            final(self)@.wf(),
            old(self)@.bus.ppu.precedes(final(self)@.bus.ppu),
    {
        reveal(CpuView::inx);
        self.register_x = self.register_x.wrapping_add(1);
        self.update_status(self.register_x);
    }

    /// Counts Y up by one, wrapping.
    pub fn iny(&mut self, memory_mode: MemoryAccessMode)
        requires
            old(self)@.wf(),
        ensures
            final(self)@ == old(self)@.iny(memory_mode),
            final(self)@.wf(),
            old(self)@.bus.ppu.precedes(final(self)@.bus.ppu),
    {
        reveal(CpuView::iny);
        self.register_y = self.register_y.wrapping_add(1);
        self.update_status(self.register_y);
    }

    /// Counts the operand down by one in place, wrapping.
    pub fn dec(&mut self, memory_mode: MemoryAccessMode)
        requires
            old(self)@.wf(),
        ensures
            final(self)@ == old(self)@.dec(memory_mode),
            final(self)@.wf(),
            old(self)@.bus.ppu.precedes(final(self)@.bus.ppu),
    {
        reveal(CpuView::dec);
        let operand = self.read_opcode_data(self.program_pointer, memory_mode);
        let result = operand.wrapping_sub(1);
        self.update_status(result);
        self.write_opcode_result(self.program_pointer, result, memory_mode);
    }

    /// Counts the operand up by one in place, wrapping; gives the new value.
    pub fn inc(&mut self, memory_mode: MemoryAccessMode) -> (result: u8)
        requires
            old(self)@.wf(),
        ensures
            (final(self)@, result) == old(self)@.inc(memory_mode),
            final(self)@.wf(),
            old(self)@.bus.ppu.precedes(final(self)@.bus.ppu),
    {
        reveal(CpuView::inc);
        let operand = self.read_opcode_data(self.program_pointer, memory_mode);
        let result = operand.wrapping_add(1);
        self.update_status(result);
        self.write_opcode_result(self.program_pointer, result, memory_mode);
        result
    }

    /// Shifts the operand left in place; carry takes the bit shifted out.
    pub fn asl(&mut self, memory_mode: MemoryAccessMode) -> (result: u8)
        requires
            old(self)@.wf(),
        ensures
            (final(self)@, result) == old(self)@.asl(memory_mode),
            final(self)@.wf(),
            old(self)@.bus.ppu.precedes(final(self)@.bus.ppu),
    {
        reveal(CpuView::asl);
        let operand = self.read_opcode_data(self.program_pointer, memory_mode);
        let result: u8 = (operand % 128) * 2;
        if operand >= 0x80 {
            self.set_carry_status();
        } else {
            self.clear_carry_status();
        }
        self.write_opcode_result(self.program_pointer, result, memory_mode);
        self.update_status(result);
        result
    }

    /// Shifts the operand right in place; carry takes the bit shifted out.
    pub fn lsr(&mut self, memory_mode: MemoryAccessMode) -> (result: u8)
        requires
            old(self)@.wf(),
        ensures
            (final(self)@, result) == old(self)@.lsr(memory_mode),
            final(self)@.wf(),
            old(self)@.bus.ppu.precedes(final(self)@.bus.ppu),
    {
        reveal(CpuView::lsr);
        let operand = self.read_opcode_data(self.program_pointer, memory_mode);
        let result: u8 = operand / 2;
        if operand % 2 == 1 {
            self.set_carry_status();
        } else {
            self.clear_carry_status();
        }
        self.write_opcode_result(self.program_pointer, result, memory_mode);
        self.update_status(result);
        result
    }

    /// Rotates the operand left through the carry, in place.
    pub fn rol(&mut self, memory_mode: MemoryAccessMode) -> (result: u8)
        requires
            old(self)@.wf(),
        ensures
            (final(self)@, result) == old(self)@.rol(memory_mode),
            final(self)@.wf(),
            old(self)@.bus.ppu.precedes(final(self)@.bus.ppu),
    {
        reveal(CpuView::rol);
        let operand = self.read_opcode_data(self.program_pointer, memory_mode);
        let result: u8 = if self.status.contains(StatusFlags::CARRY) {
            (operand % 128) * 2 + 1
        } else {
            (operand % 128) * 2
        };
        if operand >= 0x80 {
            self.set_carry_status();
        } else {
            self.clear_carry_status();
        }
        self.write_opcode_result(self.program_pointer, result, memory_mode);
        self.update_status(result);
        result
    }

    /// Rotates the operand right through the carry, in place.
    pub fn ror(&mut self, memory_mode: MemoryAccessMode) -> (result: u8)
        requires
            old(self)@.wf(),
        ensures
            (final(self)@, result) == old(self)@.ror(memory_mode),
            final(self)@.wf(),
            old(self)@.bus.ppu.precedes(final(self)@.bus.ppu),
    {
        reveal(CpuView::ror);
        let operand = self.read_opcode_data(self.program_pointer, memory_mode);
        let result: u8 = if self.status.contains(StatusFlags::CARRY) {
            operand / 2 + 0x80
        } else {
            operand / 2
        };
        if operand % 2 == 1 {
            self.set_carry_status();
        } else {
            self.clear_carry_status();
        }
        self.write_opcode_result(self.program_pointer, result, memory_mode);
        self.update_status(result);
        result
    }

    /// Tests the operand against the accumulator: zero says that they share no bit; negative and overflow copy bits 7 and 6 of the operand.
    pub fn bit(&mut self, memory_mode: MemoryAccessMode)
        requires
            old(self)@.wf(),
        ensures
            final(self)@ == old(self)@.bit(memory_mode),
            final(self)@.wf(),
            old(self)@.bus.ppu.precedes(final(self)@.bus.ppu),
    {
        reveal(CpuView::bit);
        let operand = self.read_opcode_data(self.program_pointer, memory_mode);
        let result = self.register_a & operand;
        if result == 0 {
            self.set_zero_status();
        } else {
            self.clear_zero_status();
        }
        self.status.set(StatusFlags::NEGATIVE, operand & 0x80 > 0);
        self.status.set(StatusFlags::OVERFLOW, operand & 0x40 > 0);
    }

    /// Compares a register with the operand: carry says that the register is not below it; zero and negative follow the difference.
    pub fn compare(&mut self, with: u8, memory_mode: MemoryAccessMode)
        requires
            old(self)@.wf(),
        ensures
            final(self)@ == old(self)@.compare(with, memory_mode),
            final(self)@.wf(),
            old(self)@.bus.ppu.precedes(final(self)@.bus.ppu),
    {
        reveal(CpuView::compare);
        let operand = self.read_opcode_data(self.program_pointer, memory_mode);
        if with >= operand {
            self.set_carry_status();
        } else {
            self.clear_carry_status();
        }
        self.update_status(with.wrapping_sub(operand));
    }

    /// Compares the accumulator.
    pub fn cmp(&mut self, memory_mode: MemoryAccessMode)
        requires
            old(self)@.wf(),
        ensures
            final(self)@ == old(self)@.cmp(memory_mode),
            final(self)@.wf(),
            old(self)@.bus.ppu.precedes(final(self)@.bus.ppu),
    {
        reveal(CpuView::cmp);
        self.compare(self.register_a, memory_mode);
    }

    /// Compares X.
    pub fn cpx(&mut self, memory_mode: MemoryAccessMode)
        requires
            old(self)@.wf(),
        ensures
            final(self)@ == old(self)@.cpx(memory_mode),
            final(self)@.wf(),
            old(self)@.bus.ppu.precedes(final(self)@.bus.ppu),
    {
        reveal(CpuView::cpx);
        self.compare(self.register_x, memory_mode);
    }

    /// Compares Y.
    pub fn cpy(&mut self, memory_mode: MemoryAccessMode)
        requires
            old(self)@.wf(),
        ensures
            final(self)@ == old(self)@.cpy(memory_mode),
            final(self)@.wf(),
            old(self)@.bus.ppu.precedes(final(self)@.bus.ppu),
    {
        reveal(CpuView::cpy);
        self.compare(self.register_y, memory_mode);
    }

    /// Sets carry.
    pub fn sec(&mut self, memory_mode: MemoryAccessMode)
        requires
            old(self)@.wf(),
        ensures
            final(self)@ == old(self)@.sec(memory_mode),
            final(self)@.wf(),
            old(self)@.bus.ppu.precedes(final(self)@.bus.ppu),
    {
        reveal(CpuView::sec);
        self.set_carry_status();
    }

    /// Sets decimal mode.
    pub fn sed(&mut self, memory_mode: MemoryAccessMode)
        requires
            old(self)@.wf(),
        ensures
            final(self)@ == old(self)@.sed(memory_mode),
            final(self)@.wf(),
            old(self)@.bus.ppu.precedes(final(self)@.bus.ppu),
    {
        reveal(CpuView::sed);
        self.set_decimal_mode_status();
    }

    /// Disables interrupts.
    pub fn sei(&mut self, memory_mode: MemoryAccessMode)
        requires
            old(self)@.wf(),
        ensures
            final(self)@ == old(self)@.sei(memory_mode),
            final(self)@.wf(),
            old(self)@.bus.ppu.precedes(final(self)@.bus.ppu),
    {
        reveal(CpuView::sei);
        self.set_interrupt_disable_status();
    }

    /// Clears carry.
    pub fn clc(&mut self, memory_mode: MemoryAccessMode)
        requires
            old(self)@.wf(),
        ensures
            final(self)@ == old(self)@.clc(memory_mode),
            final(self)@.wf(),
            old(self)@.bus.ppu.precedes(final(self)@.bus.ppu),
    {
        reveal(CpuView::clc);
        self.clear_carry_status();
    }

    /// Clears decimal mode.
    pub fn cld(&mut self, memory_mode: MemoryAccessMode)
        requires
            old(self)@.wf(),
        ensures
            final(self)@ == old(self)@.cld(memory_mode),
            final(self)@.wf(),
            old(self)@.bus.ppu.precedes(final(self)@.bus.ppu),
    {
        reveal(CpuView::cld);
        self.clear_decimal_mode_status();
    }

    /// Enables interrupts.
    pub fn cli(&mut self, memory_mode: MemoryAccessMode)
        requires
            old(self)@.wf(),
        ensures
            final(self)@ == old(self)@.cli(memory_mode),
            final(self)@.wf(),
            old(self)@.bus.ppu.precedes(final(self)@.bus.ppu),
    {
        reveal(CpuView::cli);
        self.clear_interrupt_disable_status();
    }

    /// Clears overflow.
    pub fn clv(&mut self, memory_mode: MemoryAccessMode)
        requires
            old(self)@.wf(),
        ensures
            final(self)@ == old(self)@.clv(memory_mode),
            final(self)@.wf(),
            old(self)@.bus.ppu.precedes(final(self)@.bus.ppu),
    {
        reveal(CpuView::clv);
        self.clear_overflow_status();
    }

    /// Pushes the accumulator.
    pub fn pha(&mut self, memory_mode: MemoryAccessMode)
        requires
            old(self)@.wf(),
        ensures
            final(self)@ == old(self)@.pha(memory_mode),
            final(self)@.wf(),
            old(self)@.bus.ppu.precedes(final(self)@.bus.ppu),
    {
        reveal(CpuView::pha);
        self.push_stack_u8(self.register_a);
    }

    /// Pulls the accumulator.
    pub fn pla(&mut self, memory_mode: MemoryAccessMode)
        requires
            old(self)@.wf(),
        ensures
            final(self)@ == old(self)@.pla(memory_mode),
            final(self)@.wf(),
            old(self)@.bus.ppu.precedes(final(self)@.bus.ppu),
    {
        reveal(CpuView::pla);
        let value = self.pop_stack_u8();
        self.set_register_a(value);
    }

    /// Pushes the status with break and unused set; the register itself stays.
    pub fn php(&mut self, memory_mode: MemoryAccessMode)
        requires
            old(self)@.wf(),
        ensures
            final(self)@ == old(self)@.php(memory_mode),
            final(self)@.wf(),
            old(self)@.bus.ppu.precedes(final(self)@.bus.ppu),
    {
        reveal(CpuView::php);
        let mut status = self.status;
        status.insert(StatusFlags::BREAK);
        status.insert(StatusFlags::UNUSED);
        self.push_stack_u8(status.bits());
    }

    /// Pulls the status, with break cleared and unused set.
    pub fn plp(&mut self, memory_mode: MemoryAccessMode)
        requires
            old(self)@.wf(),
        ensures
            final(self)@ == old(self)@.plp(memory_mode),
            final(self)@.wf(),
            old(self)@.bus.ppu.precedes(final(self)@.bus.ppu),
    {
        reveal(CpuView::plp);
        let value = self.pop_stack_u8();
        self.status = StatusFlags::from_bits(value);
        self.status.remove(StatusFlags::BREAK);
        self.status.insert(StatusFlags::UNUSED);
    }

    /// Returns from an interrupt: pulls the status, with break cleared and unused set, then the program counter.
    pub fn rti(&mut self, memory_mode: MemoryAccessMode)
        requires
            old(self)@.wf(),
        ensures
            final(self)@ == old(self)@.rti(memory_mode),
            final(self)@.wf(),
            old(self)@.bus.ppu.precedes(final(self)@.bus.ppu),
    {
        reveal(CpuView::rti);
        let value = self.pop_stack_u8();
        let mut recovered_status = StatusFlags::from_bits(value);
        recovered_status.remove(StatusFlags::BREAK);
        recovered_status.insert(StatusFlags::UNUSED);
        let recovered_counter = self.pop_stack_u16();
        self.status = recovered_status;
        self.program_pointer = recovered_counter;
    }

    /// Branches where the condition holds. A taken branch costs a cycle; its
    /// target is the operand, as a signed byte, added to the address after
    /// the operand; one more cycle passes where the target lies in another
    /// page than that address.
    pub fn branch(&mut self, condition: bool, memory_mode: MemoryAccessMode)
        requires
            old(self)@.wf(),
        ensures
            final(self)@ == old(self)@.branch(condition, memory_mode),
            final(self)@.wf(),
            old(self)@.bus.ppu.precedes(final(self)@.bus.ppu),
    {
        reveal(CpuView::branch);
        if condition {
            self.bus.tick(1);
            let displacement = self.get_opcode_data_address(
                self.program_pointer,
                memory_mode,
                true,
            );
            let next = self.program_pointer.wrapping_add(1);
            let target = next.wrapping_add(displacement);
            self.cross_page(next, target);
            self.program_pointer = target;
        }
    }

    /// Branches on carry clear.
    pub fn bcc(&mut self, memory_mode: MemoryAccessMode)
        requires
            old(self)@.wf(),
        ensures
            final(self)@ == old(self)@.bcc(memory_mode),
            final(self)@.wf(),
            old(self)@.bus.ppu.precedes(final(self)@.bus.ppu),
    {
        reveal(CpuView::bcc);
        self.branch(!self.status.contains(StatusFlags::CARRY), memory_mode);
    }

    /// Branches on carry set.
    pub fn bcs(&mut self, memory_mode: MemoryAccessMode)
        requires
            old(self)@.wf(),
        ensures
            final(self)@ == old(self)@.bcs(memory_mode),
            final(self)@.wf(),
            old(self)@.bus.ppu.precedes(final(self)@.bus.ppu),
    {
        reveal(CpuView::bcs);
        self.branch(self.status.contains(StatusFlags::CARRY), memory_mode);
    }

    /// Branches on zero set.
    pub fn beq(&mut self, memory_mode: MemoryAccessMode)
        requires
            old(self)@.wf(),
        ensures
            final(self)@ == old(self)@.beq(memory_mode),
            final(self)@.wf(),
            old(self)@.bus.ppu.precedes(final(self)@.bus.ppu),
    {
        reveal(CpuView::beq);
        self.branch(self.status.contains(StatusFlags::ZERO), memory_mode);
    }

    /// Branches on zero clear.
    pub fn bne(&mut self, memory_mode: MemoryAccessMode)
        requires
            old(self)@.wf(),
        ensures
            final(self)@ == old(self)@.bne(memory_mode),
            final(self)@.wf(),
            old(self)@.bus.ppu.precedes(final(self)@.bus.ppu),
    {
        reveal(CpuView::bne);
        self.branch(!self.status.contains(StatusFlags::ZERO), memory_mode);
    }

    /// Branches on negative set.
    pub fn bmi(&mut self, memory_mode: MemoryAccessMode)
        requires
            old(self)@.wf(),
        ensures
            final(self)@ == old(self)@.bmi(memory_mode),
            final(self)@.wf(),
            old(self)@.bus.ppu.precedes(final(self)@.bus.ppu),
    {
        reveal(CpuView::bmi);
        self.branch(self.status.contains(StatusFlags::NEGATIVE), memory_mode);
    }

    /// Branches on negative clear.
    pub fn bpl(&mut self, memory_mode: MemoryAccessMode)
        requires
            old(self)@.wf(),
        ensures
            final(self)@ == old(self)@.bpl(memory_mode),
            final(self)@.wf(),
            old(self)@.bus.ppu.precedes(final(self)@.bus.ppu),
    {
        reveal(CpuView::bpl);
        self.branch(!self.status.contains(StatusFlags::NEGATIVE), memory_mode);
    }

    /// Branches on overflow clear.
    pub fn bvc(&mut self, memory_mode: MemoryAccessMode)
        requires
            old(self)@.wf(),
        ensures
            final(self)@ == old(self)@.bvc(memory_mode),
            final(self)@.wf(),
            old(self)@.bus.ppu.precedes(final(self)@.bus.ppu),
    {
        reveal(CpuView::bvc);
        self.branch(!self.status.contains(StatusFlags::OVERFLOW), memory_mode);
    }

    /// Branches on overflow set.
    pub fn bvs(&mut self, memory_mode: MemoryAccessMode)
        requires
            old(self)@.wf(),
        ensures
            final(self)@ == old(self)@.bvs(memory_mode),
            final(self)@.wf(),
            old(self)@.bus.ppu.precedes(final(self)@.bus.ppu),
    {
        reveal(CpuView::bvs);
        self.branch(self.status.contains(StatusFlags::OVERFLOW), memory_mode);
    }

    /// Does nothing.
    pub fn nop(&mut self, memory_mode: MemoryAccessMode)
        requires
            old(self)@.wf(),
        ensures
            final(self)@ == old(self)@.nop(memory_mode),
            final(self)@.wf(),
            old(self)@.bus.ppu.precedes(final(self)@.bus.ppu),
    {
        reveal(CpuView::nop);
    }

    /// Reads its operand and drops it.
    pub fn skb(&mut self, memory_mode: MemoryAccessMode)
        requires
            old(self)@.wf(),
        ensures
            final(self)@ == old(self)@.skb(memory_mode),
            final(self)@.wf(),
            old(self)@.bus.ppu.precedes(final(self)@.bus.ppu),
    {
        reveal(CpuView::skb);
        let _ = self.read_opcode_data(self.program_pointer, memory_mode);
    }

    /// Jumps to the effective address.
    pub fn jmp(&mut self, memory_mode: MemoryAccessMode)
        requires
            old(self)@.wf(),
        ensures
            final(self)@ == old(self)@.jmp(memory_mode),
            final(self)@.wf(),
            old(self)@.bus.ppu.precedes(final(self)@.bus.ppu),
    {
        reveal(CpuView::jmp);
        let address = self.get_opcode_data_address(self.program_pointer, memory_mode, true);
        self.program_pointer = address;
    }

    /// Calls a subroutine: pushes the address of the instruction's last byte and jumps.
    pub fn jsr(&mut self, opcode_metadata: &Opcode)
        requires
            old(self)@.wf(),
        ensures
            final(self)@ == old(self)@.jsr(*opcode_metadata),
            final(self)@.wf(),
            old(self)@.bus.ppu.precedes(final(self)@.bus.ppu),
    {
        reveal(CpuView::jsr);
        let address = self.get_opcode_data_address(
            self.program_pointer,
            opcode_metadata.memory_mode,
            true,
        );
        let saved_pointer = self.program_pointer.wrapping_add(
            opcode_metadata.length.wrapping_sub(1) as u16,
        ).wrapping_sub(1);
        self.push_stack_u16(saved_pointer);
        self.program_pointer = address;
    }

    /// Returns from a subroutine: pulls an address and goes on after it.
    pub fn rts(&mut self, memory_mode: MemoryAccessMode)
        requires
            old(self)@.wf(),
        ensures
            final(self)@ == old(self)@.rts(memory_mode),
            final(self)@.wf(),
            old(self)@.bus.ppu.precedes(final(self)@.bus.ppu),
    {
        reveal(CpuView::rts);
        let recovered_counter = self.pop_stack_u16();
        self.program_pointer = recovered_counter.wrapping_add(1);
    }

    /// The software interrupt. It skips its padding byte; with interrupts
    /// disabled it does no more, else the interrupt is taken.
    pub fn brk(&mut self)
        requires
            old(self)@.wf(),
        ensures
            final(self)@ == old(self)@.brk(),
            final(self)@.wf(),
            old(self)@.bus.ppu.precedes(final(self)@.bus.ppu),
    {
        reveal(CpuView::brk);
        self.program_pointer = self.program_pointer.wrapping_add(1);
        if self.status.contains(StatusFlags::INTERRUPT_DISABLE) {
            return ;
        }
        self.interrupt(CpuInterrupt::brk());
    }

    /// Stores the accumulator and X and the high byte of the effective address, anded together, plus one.
    pub fn axa(&mut self, memory_mode: MemoryAccessMode)
        requires
            old(self)@.wf(),
        ensures
            final(self)@ == old(self)@.axa(memory_mode),
            final(self)@.wf(),
            old(self)@.bus.ppu.precedes(final(self)@.bus.ppu),
    {
        reveal(CpuView::axa);
        let address = self.get_opcode_data_address(self.program_pointer, memory_mode, true);
        let high = (address / 256) as u8;
        let result = (self.register_a & self.register_x & high).wrapping_add(1);
        self.write_opcode_result(self.program_pointer, result, memory_mode);
    }

    /// Stores Y anded with the high byte of the effective address plus one.
    pub fn say(&mut self, memory_mode: MemoryAccessMode)
        requires
            old(self)@.wf(),
        ensures
            final(self)@ == old(self)@.say(memory_mode),
            final(self)@.wf(),
            old(self)@.bus.ppu.precedes(final(self)@.bus.ppu),
    {
        reveal(CpuView::say);
        let address = self.get_opcode_data_address(self.program_pointer, memory_mode, true);
        let high = (address / 256) as u8;
        let result = self.register_y & high.wrapping_add(1);
        self.write_opcode_result(self.program_pointer, result, memory_mode);
    }

    /// Shifts the operand left in place and ors the result into the accumulator.
    pub fn aso(&mut self, memory_mode: MemoryAccessMode)
        requires
            old(self)@.wf(),
        ensures
            final(self)@ == old(self)@.aso(memory_mode),
            final(self)@.wf(),
            old(self)@.bus.ppu.precedes(final(self)@.bus.ppu),
    {
        reveal(CpuView::aso);
        let result = self.asl(memory_mode);
        self.or_register_a(result);
    }

    /// Rotates the operand left in place and ands the result into the accumulator.
    pub fn rla(&mut self, memory_mode: MemoryAccessMode)
        requires
            old(self)@.wf(),
        ensures
            final(self)@ == old(self)@.rla(memory_mode),
            final(self)@.wf(),
            old(self)@.bus.ppu.precedes(final(self)@.bus.ppu),
    {
        reveal(CpuView::rla);
        let result = self.rol(memory_mode);
        self.and_register_a(result);
    }

    /// Shifts the operand right in place and exclusive-ors the result into the accumulator.
    pub fn lse(&mut self, memory_mode: MemoryAccessMode)
        requires
            old(self)@.wf(),
        ensures
            final(self)@ == old(self)@.lse(memory_mode),
            final(self)@.wf(),
            old(self)@.bus.ppu.precedes(final(self)@.bus.ppu),
    {
        reveal(CpuView::lse);
        let result = self.lsr(memory_mode);
        self.xor_register_a(result);
    }

    /// Rotates the operand right in place and adds the result to the accumulator.
    pub fn rra(&mut self, memory_mode: MemoryAccessMode)
        requires
            old(self)@.wf(),
        ensures
            final(self)@ == old(self)@.rra(memory_mode),
            final(self)@.wf(),
            old(self)@.bus.ppu.precedes(final(self)@.bus.ppu),
    {
        reveal(CpuView::rra);
        let result = self.ror(memory_mode);
        self.add_to_register_a(result);
    }

    /// Counts the operand up in place and subtracts the result from the accumulator.
    pub fn ins(&mut self, memory_mode: MemoryAccessMode)
        requires
            old(self)@.wf(),
        ensures
            final(self)@ == old(self)@.ins(memory_mode),
            final(self)@.wf(),
            old(self)@.bus.ppu.precedes(final(self)@.bus.ppu),
    {
        reveal(CpuView::ins);
        let result = self.inc(memory_mode);
        self.sub_from_register_a(result);
    }

    /// Stores the accumulator anded with X.
    pub fn axs(&mut self, memory_mode: MemoryAccessMode)
        requires
            old(self)@.wf(),
        ensures
            final(self)@ == old(self)@.axs(memory_mode),
            final(self)@.wf(),
            old(self)@.bus.ppu.precedes(final(self)@.bus.ppu),
    {
        reveal(CpuView::axs);
        let result = self.register_a & self.register_x;
        self.write_opcode_result(self.program_pointer, result, memory_mode);
    }

    /// Loads the accumulator and X with the operand.
    pub fn lax(&mut self, memory_mode: MemoryAccessMode)
        requires
            old(self)@.wf(),
        ensures
            final(self)@ == old(self)@.lax(memory_mode),
            final(self)@.wf(),
            old(self)@.bus.ppu.precedes(final(self)@.bus.ppu),
    {
        reveal(CpuView::lax);
        self.lda(memory_mode);
        self.set_register_x(self.register_a);
    }

    /// Counts the operand down in place and compares the accumulator with the result.
    pub fn dcm(&mut self, memory_mode: MemoryAccessMode)
        requires
            old(self)@.wf(),
        ensures
            final(self)@ == old(self)@.dcm(memory_mode),
            final(self)@.wf(),
            old(self)@.bus.ppu.precedes(final(self)@.bus.ppu),
    {
        reveal(CpuView::dcm);
        let operand = self.read_opcode_data(self.program_pointer, memory_mode);
        let result = operand.wrapping_sub(1);
        self.write_opcode_result(self.program_pointer, result, memory_mode);
        if self.register_a >= result {
            self.set_carry_status();
        } else {
            self.clear_carry_status();
        }
        self.update_status(self.register_a.wrapping_sub(result));
    }
}

} // verus!
