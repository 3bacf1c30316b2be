//! Standard controller: a pressed-button bitmask and the serial shift
//! register that the CPU reads one bit at a time.

use vstd::prelude::*;

verus! {

/// A set of controller buttons, one bit per button.
#[derive(Clone, Copy, Debug, PartialEq, Eq, Hash, Structural)]
pub struct JoypadButtons {
    pub bits: u8,
}

impl JoypadButtons {
    pub const RIGHT: u8 = 0b0000_0001;
    pub const LEFT: u8 = 0b0000_0010;
    pub const DOWN: u8 = 0b0000_0100;
    pub const UP: u8 = 0b0000_1000;
    pub const START: u8 = 0b0001_0000;
    pub const SELECT: u8 = 0b0010_0000;
    pub const B: u8 = 0b0100_0000;
    pub const A: u8 = 0b1000_0000;

    /// The set with no button in it.
    pub fn empty() -> (r: JoypadButtons)
        ensures
            r.bits == 0,
    {
        JoypadButtons { bits: 0 }
    }

    /// The set whose bitmask is `bits`; every bit names a button.
    pub fn from_bits(bits: u8) -> (r: JoypadButtons)
        ensures
            r.bits == bits,
    {
        JoypadButtons { bits }
    }

    /// The set as a byte.
    #[verifier::allow_in_spec]
    pub fn bits(&self) -> u8
        returns
            self.bits,
    {
        self.bits
    }

    /// Whether every button of `other` is in this set.
    #[verifier::allow_in_spec]
    pub fn contains(&self, other: JoypadButtons) -> bool
        returns
            self.bits & other.bits == other.bits,
    {
        self.bits & other.bits == other.bits
    }

    /// Adds the buttons of `other`.
    pub fn insert(&mut self, other: JoypadButtons)
        ensures
            final(self).bits == old(self).bits | other.bits,
    {
        self.bits = self.bits | other.bits;
    }

    /// Takes the buttons of `other` out.
    pub fn remove(&mut self, other: JoypadButtons)
        ensures
            final(self).bits == old(self).bits & !other.bits,
    {
        self.bits = self.bits & !other.bits;
    }
}

/// One controller port.
///
/// `buttons_pressed` follows the host's press and release events; `state` is
/// the shift register, reloaded from the bitmask on a strobe write and
/// drained from its top bit on each read.
#[derive(Clone, Copy, Debug)]
pub struct Joypad {
    pub buttons_pressed: JoypadButtons,
    pub state: u8,
}

impl Joypad {
    /// A controller with no button pressed and an empty register.
    pub fn new() -> (r: Joypad)
        ensures
            r.buttons_pressed.bits == 0,
            r.state == 0,
    {
        Joypad { buttons_pressed: JoypadButtons::empty(), state: 0 }
    }

    /// The bit that the next read reports: the top bit of the register.
    pub open spec fn spec_read_value(self) -> u8 {
        if self.state >= 0x80 {
            1
        } else {
            0
        }
    }

    /// The port after one read: the register moved one place to the left.
    pub open spec fn spec_read(self) -> Joypad {
        Joypad { state: shifted(self.state), ..self }
    }

    /// The port after a strobe write: the register holds the pressed buttons.
    pub open spec fn spec_write(self) -> Joypad {
        Joypad { state: self.buttons_pressed.bits, ..self }
    }

    /// The port with the buttons of `button` pressed.
    pub open spec fn spec_press_button(self, button: JoypadButtons) -> Joypad {
        Joypad {
            buttons_pressed: JoypadButtons { bits: self.buttons_pressed.bits | button.bits },
            ..self
        }
    }

    /// The port with the buttons of `button` released.
    pub open spec fn spec_release_button(self, button: JoypadButtons) -> Joypad {
        Joypad {
            buttons_pressed: JoypadButtons { bits: self.buttons_pressed.bits & !button.bits },
            ..self
        }
    }

    /// Reports the top bit of the shift register in bit 0 and shifts the
    /// register left by one.
    pub fn read(&mut self) -> (data: u8)
        ensures
            data == old(self).spec_read_value(),
            *final(self) == old(self).spec_read(),
    {
        let data: u8 = if self.state >= 0x80 { 1 } else { 0 };
        self.state = ((self.state as u16 * 2) % 256) as u8;
        data
    }

    /// Reloads the shift register from the pressed-button bitmask.
    pub fn write(&mut self)
        ensures
            *final(self) == old(self).spec_write(),
    {
        self.state = self.buttons_pressed.bits();
    }

    /// A button goes down.
    pub fn press_button(&mut self, button: JoypadButtons)
        ensures
            *final(self) == old(self).spec_press_button(button),
    {
        self.buttons_pressed.insert(button);
    }

    /// A button comes up.
    pub fn release_button(&mut self, button: JoypadButtons)
        ensures
            *final(self) == old(self).spec_release_button(button),
    {
        self.buttons_pressed.remove(button);
    }
}

/// The register one read later.
pub open spec fn shifted(s: u8) -> u8 {
    ((s as u16 * 2) % 256) as u8
}

/// Repeated left shifts bring the bits of `b` to the top place one after
/// another, highest first, and leave the register empty after eight.
proof fn lemma_shift_order(b: u8)
    by (bit_vector)
    ensures
        (b >= 0x80) == ((b / 128) % 2 == 1),
        (shifted(b) >= 0x80) == ((b / 64) % 2 == 1),
        (shifted(shifted(b)) >= 0x80) == ((b / 32) % 2 == 1),
        (shifted(shifted(shifted(b))) >= 0x80) == ((b / 16) % 2 == 1),
        (shifted(shifted(shifted(shifted(b)))) >= 0x80) == ((b / 8) % 2 == 1),
        (shifted(shifted(shifted(shifted(shifted(b))))) >= 0x80) == ((b / 4) % 2 == 1),
        (shifted(shifted(shifted(shifted(shifted(shifted(b)))))) >= 0x80) == ((b / 2) % 2 == 1),
        (shifted(shifted(shifted(shifted(shifted(shifted(shifted(b))))))) >= 0x80) == (b % 2 == 1),
        shifted(shifted(shifted(shifted(shifted(shifted(shifted(shifted(b)))))))) == 0,
        b % 2 <= 1,
{
}

/// After a strobe, eight reads report the buttons in the order A, B, Select,
/// Start, Up, Down, Left, Right: the `k`-th read (from 0) reports bit
/// `7 - k` of the bitmask, and the register is then empty.
pub proof fn lemma_reads_follow_button_order(pad: Joypad)
    ensures
        ({
            let s0 = pad.spec_write();
            let s1 = s0.spec_read();
            let s2 = s1.spec_read();
            let s3 = s2.spec_read();
            let s4 = s3.spec_read();
            let s5 = s4.spec_read();
            let s6 = s5.spec_read();
            let s7 = s6.spec_read();
            let b = pad.buttons_pressed.bits;
            &&& (s0.spec_read_value() == 1) == ((b / 128) % 2 == 1)
            &&& (s1.spec_read_value() == 1) == ((b / 64) % 2 == 1)
            &&& (s2.spec_read_value() == 1) == ((b / 32) % 2 == 1)
            &&& (s3.spec_read_value() == 1) == ((b / 16) % 2 == 1)
            &&& (s4.spec_read_value() == 1) == ((b / 8) % 2 == 1)
            &&& (s5.spec_read_value() == 1) == ((b / 4) % 2 == 1)
            &&& (s6.spec_read_value() == 1) == ((b / 2) % 2 == 1)
            &&& (s7.spec_read_value() == 1) == (b % 2 == 1)
            &&& s7.spec_read().state == 0
        }),
{
    lemma_shift_order(pad.buttons_pressed.bits);
}

} // verus!
