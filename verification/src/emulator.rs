//! The whole machine as a host sees it: load a ROM image, feed button
//! events, run one frame, look at the picture.

use vstd::prelude::*;
use crate::bus::{Bus, BusView};
use crate::cartridge::{spec_parse, Cartridge, RomParseError};
use crate::cpu::{CpuView, CPU};
use crate::execute::UnknownOpcode;
use crate::joypad::JoypadButtons;
use crate::ppu::PPU;
use vstd::array::spec_array_update;

verus! {

/// A number of steps within which every frame is completed: the number
/// of dots in a frame.
pub const FRAME_STEP_LIMIT: u64 = 89342;

/// A machine with a cartridge in it.
pub struct Emulator {
    pub cpu: CPU,
}

impl View for Emulator {
    type V = CpuView;

    open spec fn view(&self) -> CpuView {
        self.cpu@
    }
}

/// The machine at power-on with the cartridge of a ROM image in it, or why
/// there is none: the image holds no cartridge, or one with an arrangement
/// of name tables that the picture unit cannot render.
pub open spec fn spec_load(rom_bytes: Seq<u8>) -> Result<CpuView, RomParseError> {
    match spec_parse(rom_bytes) {
        Err(e) => Err(e),
        Ok(cartridge) => if cartridge.wf() {
            Ok(CpuView::spec_new(BusView::spec_new(PPU::spec_new(), cartridge)))
        } else {
            Err(RomParseError::UnsupportedMirroring)
        },
    }
}

impl CpuView {
    /// The machine with the frame-complete flag lowered.
    pub open spec fn consume_frame(self) -> CpuView {
        CpuView {
            bus: BusView { ppu: PPU { completed_frame: false, ..self.bus.ppu }, ..self.bus },
            ..self
        }
    }

    /// The machine after it ran until the picture unit completed a frame,
    /// for at most `budget` steps, and how that ended: `Ok(true)` with the
    /// flag lowered after the step that completed a frame, the unknown
    /// opcode after the step that met one, `Ok(false)` where `budget` steps
    /// completed no frame.
    pub open spec fn run_frame(self, budget: nat) -> (CpuView, Result<bool, UnknownOpcode>)
        decreases budget,
    {
        if budget == 0 {
            (self, Ok(false))
        } else {
            let (next, outcome) = self.cpu_step();
            match outcome {
                Err(e) => (next, Err(e)),
                Ok(_) => if next.bus.ppu.completed_frame {
                    (next.consume_frame(), Ok(true))
                } else {
                    next.run_frame((budget - 1) as nat)
                },
            }
        }
    }

    /// The machine with a button event applied to one controller.
    pub open spec fn with_button(self, pad_index: int, button: JoypadButtons, pressed: bool) -> CpuView {
        CpuView {
            bus: BusView {
                joypads: spec_array_update(
                    self.bus.joypads,
                    pad_index,
                    if pressed {
                        self.bus.joypads[pad_index].spec_press_button(button)
                    } else {
                        self.bus.joypads[pad_index].spec_release_button(button)
                    },
                ),
                ..self.bus
            },
            ..self
        }
    }
}

impl Emulator {
    /// Builds the machine around the cartridge of a ROM image and powers
    /// it on.
    pub fn new(rom_bytes: &[u8]) -> (result: Result<Emulator, RomParseError>)
        ensures
            match result {
                Ok(emulator) => spec_load(rom_bytes@) == Ok::<CpuView, RomParseError>(emulator@)
                    && emulator@.wf(),
                Err(e) => spec_load(rom_bytes@) == Err::<CpuView, RomParseError>(e),
            },
    {
        let cartridge = match Cartridge::new(rom_bytes) {
            Ok(cartridge) => cartridge,
            Err(e) => {
                return Err(e);
            },
        };
        if !cartridge.is_well_formed() {
            return Err(RomParseError::UnsupportedMirroring);
        }
        let ppu = PPU::new();
        let bus = Bus::new(ppu, cartridge);
        Ok(Emulator { cpu: CPU::new(bus) })
    }

    /// Tests whether the machine is in a state that it can be run from.
    /// Every machine that [`Emulator::new`] built and that only this
    /// library's functions have changed is.
    pub fn is_well_formed(&self) -> (ok: bool)
        ensures
            ok == self@.wf(),
    {
        self.cpu.is_well_formed()
    }

    /// A button of controller `pad_index` goes down.
    pub fn press(&mut self, pad_index: usize, button: JoypadButtons)
        requires
            pad_index < 2,
        ensures
            final(self)@ == old(self)@.with_button(pad_index as int, button, true),
    {
        self.cpu.bus.joypads[pad_index].press_button(button);
    }

    /// A button of controller `pad_index` comes up.
    pub fn release(&mut self, pad_index: usize, button: JoypadButtons)
        requires
            pad_index < 2,
        ensures
            final(self)@ == old(self)@.with_button(pad_index as int, button, false),
    {
        self.cpu.bus.joypads[pad_index].release_button(button);
    }

    /// Runs the processor until the picture unit has completed a frame and
    /// lowers the frame-complete flag. Every step moves the picture unit on
    /// within its frame, so the step limit is never met: the run ends with
    /// a completed frame or with an unknown opcode.
    pub fn run_until_frame(&mut self) -> (result: Result<(), UnknownOpcode>)
        requires
            old(self)@.wf(),
        ensures
            old(self)@.run_frame(FRAME_STEP_LIMIT as nat) == (
                final(self)@,
                match result {
                    Ok(()) => Ok::<bool, UnknownOpcode>(true),
                    Err(e) => Err::<bool, UnknownOpcode>(e),
                },
            ),
            final(self)@.wf(),
    {
        let ghost start = self@;
        let mut steps: u64 = 0;
        while steps < FRAME_STEP_LIMIT
            invariant
                steps <= FRAME_STEP_LIMIT,
                self@.wf(),
                start == old(self)@,
                steps <= self@.bus.ppu.frame_position(),
                start.run_frame(FRAME_STEP_LIMIT as nat) == self@.run_frame(
                    (FRAME_STEP_LIMIT - steps) as nat,
                ),
            decreases FRAME_STEP_LIMIT - steps,
        {
            match self.cpu.cpu_step() {
                Err(e) => {
                    return Err(e);
                },
                Ok(_) => {},
            }
            if self.cpu.bus.ppu.completed_frame {
                self.cpu.bus.ppu.completed_frame = false;
                return Ok(());
            }
            steps += 1;
        }
        Ok(())
    }

    /// The picture: one palette index, 0 to 63, for each of the 256 × 240
    /// dots, line after line.
    pub fn framebuffer(&self) -> (screen: &[u8; 61440])
        requires
            self@.wf(),
        ensures
            *screen == self@.bus.ppu.screen,
            forall|i: int| 0 <= i < 61440 ==> #[trigger] screen[i] < 64,
    {
        &self.cpu.bus.ppu.screen
    }
}

} // verus!
