//! What holds of single steps of the machine.

use vstd::prelude::*;
use crate::addressing::MemoryAccessMode;
use crate::bus::{lemma_cartridge_access, lemma_ram_access, word, BusView};
use crate::cpu::{lemma_push, CpuView, StatusFlags};
use crate::execute::UnknownOpcode;
use crate::opcode::{Opcode, OpcodeType};
use crate::timing::lemma_run_dots_outside;

verus! {

/// What serving the picture unit's interrupt leaves behind.
///
/// The stack holds, from the old stack pointer down, the high and the low
/// byte of the program counter that the next fetch would have used, and
/// the status with break cleared and unused set; the stack pointer is
/// three lower; interrupts are disabled; the interrupt is lowered; seven
/// cycles have passed; and the program counter is the one kept at $FFFA.
pub proof fn lemma_nmi_stacks_program_counter(cpu: CpuView)
    ensures
        ({
            let served = cpu.service_nmi();
            let pushed = cpu.status.spec_remove(StatusFlags::BREAK).spec_insert(
                StatusFlags::UNUSED,
            );
            &&& served.stack_pointer == cpu.stack_pointer.wrapping_sub(3)
            &&& served.bus.cpu_memory[0x100 + cpu.stack_pointer] == cpu.program_pointer / 256
            &&& served.bus.cpu_memory[0x100 + cpu.stack_pointer.wrapping_sub(1)]
                == cpu.program_pointer % 256
            &&& served.bus.cpu_memory[0x100 + cpu.stack_pointer.wrapping_sub(2)] == pushed.bits
            &&& served.status == pushed.spec_insert(StatusFlags::INTERRUPT_DISABLE)
            &&& !served.bus.ppu.nmi_interrupt
            &&& served.bus.cpu_cycles == cpu.bus.cpu_cycles.wrapping_add(7)
            &&& served.program_pointer == word(
                cpu.bus.cartridge.cpu_read_u8(0xFFFA),
                cpu.bus.cartridge.cpu_read_u8(0xFFFB),
            )
            &&& served.register_a == cpu.register_a
            &&& served.register_x == cpu.register_x
            &&& served.register_y == cpu.register_y
        }),
{
    reveal(CpuView::interrupt);
    reveal(BusView::tick);
    let high = cpu.push_stack_u8((cpu.program_pointer / 256) as u8);
    lemma_push(cpu, (cpu.program_pointer / 256) as u8);
    let both = high.push_stack_u8((cpu.program_pointer % 256) as u8);
    lemma_push(high, (cpu.program_pointer % 256) as u8);
    let flagged = both.set_flag(StatusFlags::BREAK, false).set_flag(StatusFlags::UNUSED, true);
    lemma_push(flagged, flagged.status.bits);
    let stacked = flagged.push_stack_u8(flagged.status.bits).set_flag(
        StatusFlags::INTERRUPT_DISABLE,
        true,
    );
    lemma_run_dots_outside(stacked.bus, 21);
    let ticked = stacked.bus_tick(7);
    lemma_cartridge_access(ticked.bus, 0xFFFA, 0);
    lemma_cartridge_access(ticked.bus, 0xFFFB, 0);
    assert(ticked.bus.cpu_memory == stacked.bus.cpu_memory);
    assert(ticked.bus.cartridge == cpu.bus.cartridge);
    assert(ticked.bus_read_u16(0xFFFA).0 == ticked);
}

/// A step over `LDA #value` in work RAM, with no interrupt pending, loads
/// the accumulator, sets zero and negative by the value, moves the program
/// counter on by two and takes two cycles; it touches nothing else of the
/// processor.
pub proof fn lemma_step_lda_immediate(cpu: CpuView, value: u8)
    requires
        !cpu.bus.ppu.nmi_interrupt,
        cpu.program_pointer < 0x1FFF,
        cpu.bus.cpu_memory[(cpu.program_pointer % 0x800) as int] == 0xA9,
        cpu.bus.cpu_memory[(cpu.program_pointer + 1) % 0x800] == value,
    ensures
        ({
            let (next, outcome) = cpu.cpu_step();
            &&& outcome == Ok::<u64, UnknownOpcode>(2)
            &&& next.register_a == value
            &&& next.status == cpu.status.spec_set(StatusFlags::NEGATIVE, value >= 0x80).spec_set(
                StatusFlags::ZERO,
                value == 0,
            )
            &&& next.program_pointer == cpu.program_pointer + 2
            &&& next.cycles == cpu.cycles.wrapping_add(2)
            &&& next.bus == cpu.bus.tick(2)
            &&& next.register_x == cpu.register_x
            &&& next.register_y == cpu.register_y
            &&& next.stack_pointer == cpu.stack_pointer
        }),
{
    reveal(BusView::tick);
    reveal(CpuView::cpu_step);
    reveal(CpuView::execute_opcode);
    reveal(CpuView::run_instruction);
    reveal(CpuView::run_logic);
    reveal(CpuView::run_shift_or_load);
    reveal(CpuView::lda);
    reveal(CpuView::fetch_operand);
    lemma_ram_access(cpu.bus, cpu.program_pointer, 0);
    lemma_ram_access(cpu.bus, (cpu.program_pointer + 1) as u16, 0);
    let fetched = cpu.past_opcode();
    assert(cpu.bus_read(cpu.program_pointer) == (cpu, 0xA9u8));
    assert(OpcodeType::spec_from_u8(0xA9) == Some(OpcodeType::LdaI));
    assert(Opcode::spec_of(OpcodeType::LdaI).cycles == 2);
    assert(Opcode::spec_of(OpcodeType::LdaI).length == 2);
    assert(Opcode::spec_of(OpcodeType::LdaI).memory_mode == MemoryAccessMode::Immediate);
    let loaded = fetched.set_register_a(value);
    assert(fetched.lda(MemoryAccessMode::Immediate) == loaded);
    lemma_run_dots_outside(loaded.bus, 6);
}

/// Where an indirect jump leads when its operand and its pointer lie in
/// work RAM: to the address whose low byte is at the pointer and whose
/// high byte is at the pointer plus one, but at the start of the pointer's
/// own page where the pointer is the last byte of a page. Finding the
/// target changes nothing.
pub proof fn lemma_indirect_jump_target(cpu: CpuView, index: u16, read: bool)
    requires
        index < 0x1FFF,
        word(
            cpu.bus.cpu_memory[(index % 0x800) as int],
            cpu.bus.cpu_memory[((index + 1) % 0x800) as int],
        ) < 0x1FFF,
    ensures
        ({
            let memory = cpu.bus.cpu_memory;
            let pointer = word(memory[(index % 0x800) as int], memory[((index + 1) % 0x800) as int]);
            let (after, target) = cpu.get_opcode_data_address(
                index,
                MemoryAccessMode::Indirect,
                read,
            );
            &&& after == cpu
            &&& pointer % 256 == 0xFF ==> target == word(
                memory[(pointer % 0x800) as int],
                memory[((pointer - 0xFF) % 0x800) as int],
            )
            &&& pointer % 256 != 0xFF ==> target == word(
                memory[(pointer % 0x800) as int],
                memory[((pointer + 1) % 0x800) as int],
            )
        }),
{
    reveal(CpuView::get_opcode_data_address);
    let memory = cpu.bus.cpu_memory;
    let pointer = word(memory[(index % 0x800) as int], memory[((index + 1) % 0x800) as int]);
    lemma_ram_access(cpu.bus, index, 0);
    lemma_ram_access(cpu.bus, (index + 1) as u16, 0);
    lemma_ram_access(cpu.bus, pointer, 0);
    lemma_ram_access(cpu.bus, (pointer + 1) as u16, 0);
    lemma_ram_access(cpu.bus, ((pointer / 256) * 256) as u16, 0);
    assert(cpu.read_pointer(index, index.wrapping_add(1)) == (cpu, pointer));
}

} // verus!
