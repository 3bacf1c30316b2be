//! The core of an NES emulator: the processor, the picture unit and the
//! cartridge, stepped together cycle by cycle.
//!
//! Every executable function carries a contract over a model of the machine
//! as plain values. The model of a function that changes the machine is a
//! `spec` function from the machine before to the machine after, so running
//! the same function on the same machine always gives the same machine.
//!
//! From the leaves up: [`joypad`], [`registers`], [`oam`] and [`addressing`]
//! hold the small value types; [`mappers`] and [`cartridge`] the ROM image
//! and its address logic; [`ppu`] and [`render`] the picture unit; [`bus`]
//! the processor's address space; [`opcode`], [`cpu`], [`instructions`] and
//! [`execute`] the processor; [`emulator`] the machine as a host drives it;
//! [`timing`] what holds of the walk through a frame, [`sprites`] what
//! sprite selection selects, and [`stepping`] what holds of single steps.

pub mod addressing;
pub mod bus;
pub mod cartridge;
pub mod cpu;
pub mod emulator;
pub mod execute;
pub mod instructions;
pub mod joypad;
pub mod mappers;
pub mod oam;
pub mod opcode;
pub mod ppu;
pub mod registers;
pub mod render;
pub mod sprites;
pub mod stepping;
pub mod timing;
