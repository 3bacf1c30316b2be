//! The thirteen addressing modes of the processor.

use vstd::prelude::*;

verus! {

pub const PAGE_SIZE: usize = 0x100;

/// How an instruction finds its operand.
///
/// The flag of the indexed and relative modes says whether the instruction
/// pays one more cycle when indexing leaves the page: reads do, stores and
/// read-modify-write instructions do not.
#[derive(Debug, Copy, Hash, Clone, PartialEq, Eq, Structural)]
pub enum MemoryAccessMode {
    Implied,
    Immediate,
    Accumulator,
    ZeroPage,
    ZeroPageX,
    ZeroPageY,
    Relative(bool),
    Absolute,
    AbsoluteX(bool),
    AbsoluteY(bool),
    Indirect,
    IndirectX,
    IndirectY(bool),
}

impl MemoryAccessMode {
    /// Whether the mode is one that can pay for leaving a page and is
    /// flagged to do so.
    #[verifier::allow_in_spec]
    pub fn can_page_cross(&self) -> bool
        returns
            (match *self {
                MemoryAccessMode::Relative(flag) => flag,
                MemoryAccessMode::AbsoluteX(flag) => flag,
                MemoryAccessMode::AbsoluteY(flag) => flag,
                MemoryAccessMode::IndirectY(flag) => flag,
                _ => false,
            }),
    {
        match *self {
            MemoryAccessMode::Relative(flag) => flag,
            MemoryAccessMode::AbsoluteX(flag) => flag,
            MemoryAccessMode::AbsoluteY(flag) => flag,
            MemoryAccessMode::IndirectY(flag) => flag,
            _ => false,
        }
    }

    /// Whether two addresses lie in different 256-byte pages of the 16-bit
    /// address space.
    #[verifier::allow_in_spec]
    pub fn page_crossed(base: usize, address: usize) -> bool
        returns
            (base / PAGE_SIZE) % PAGE_SIZE != (address / PAGE_SIZE) % PAGE_SIZE,
    {
        (base / PAGE_SIZE) % PAGE_SIZE != (address / PAGE_SIZE) % PAGE_SIZE
    }
}

} // verus!
