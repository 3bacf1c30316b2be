//! How the picture unit walks through a frame: where a dot leads, how long
//! a frame lasts, and when the interrupt is raised.

use vstd::prelude::*;
use crate::bus::{lemma_run_dots_add, BusView};
use crate::cartridge::CartridgeView;
use crate::ppu::PPU;
use crate::registers::Controller;

verus! {

/// The dots of a frame: 262 lines of 341.
pub const DOTS_PER_FRAME: usize = 89342;

/// The position of dot 1 of line 241, where vertical blank begins.
pub const VBLANK_POSITION: usize = 82523;

impl PPU {
    /// How many dots lie between the start of the pre-render line and the
    /// current dot.
    pub open spec fn frame_position(self) -> int {
        (self.scanlines + 1) * 341 + self.cycles
    }

    /// Whether the next dot is the idle dot of line 0 with rendering on,
    /// which is skipped.
    pub open spec fn skips_dot(self) -> bool {
        self.scanlines == 0 && self.cycles == 0 && self.mask_register.is_render_enabled()
    }

    /// Whether `later` can follow this state within one frame or after its
    /// end: a completed frame stays completed, and short of completion the
    /// position does not go back.
    pub open spec fn precedes(self, later: PPU) -> bool {
        &&& self.completed_frame ==> later.completed_frame
        &&& later.completed_frame || later.frame_position() >= self.frame_position()
    }

    /// As [`Self::precedes`], with the position moved on where the frame
    /// is not completed.
    pub open spec fn strictly_precedes(self, later: PPU) -> bool {
        &&& self.completed_frame ==> later.completed_frame
        &&& later.completed_frame || later.frame_position() > self.frame_position()
    }

    /// Whether two states agree on everything that can only change at the
    /// end of a dot or from outside: the line, the two register images that
    /// steer the walk, and the flags that the end of a frame touches.
    pub open spec fn same_clock(self, other: PPU) -> bool {
        &&& self.scanlines == other.scanlines
        &&& self.mask_register == other.mask_register
        &&& self.control_register == other.control_register
        &&& self.completed_frame == other.completed_frame
        &&& self.odd_frame == other.odd_frame
        &&& self.total_cycles == other.total_cycles
        &&& self.same_memory(other)
    }

    /// Whether two states agree on what only the processor can change:
    /// name-table, palette and object attribute memory, the OAM address,
    /// the temporary address, fine X, the write toggle and the read
    /// buffer.
    pub open spec fn same_memory(self, other: PPU) -> bool {
        &&& self.memory == other.memory
        &&& self.palette == other.palette
        &&& self.oam_sprites == other.oam_sprites
        &&& self.oam_address_register == other.oam_address_register
        &&& self.temp_address_register == other.temp_address_register
        &&& self.fine_x == other.fine_x
        &&& self.latch == other.latch
        &&& self.data_buffer == other.data_buffer
        &&& self.debug_pattern_tables == other.debug_pattern_tables
    }
}

/// Moving the selected sprites on changes neither the position nor the
/// count of sprites.
pub proof fn lemma_shift_sprites_clock(ppu: PPU, n: nat)
    ensures
        ppu.same_clock(ppu.spec_shift_sprites(n)),
        ppu.same_position(ppu.spec_shift_sprites(n)),
        ppu.nmi_interrupt == ppu.spec_shift_sprites(n).nmi_interrupt,
    decreases n,
{
    if n > 0 {
        lemma_shift_sprites_clock(ppu, (n - 1) as nat);
    }
}

/// Loading the sprite shifters changes neither the position nor the count
/// of sprites.
pub proof fn lemma_prepare_sprites_clock(ppu: PPU, cart: CartridgeView, n: nat)
    ensures
        ppu.same_clock(ppu.spec_prepare_sprites(cart, n)),
        ppu.same_position(ppu.spec_prepare_sprites(cart, n)),
        ppu.nmi_interrupt == ppu.spec_prepare_sprites(cart, n).nmi_interrupt,
    decreases n,
{
    if n > 0 {
        lemma_prepare_sprites_clock(ppu, cart, (n - 1) as nat);
    }
}

/// Selecting sprites changes no position and selects no more than eight.
pub proof fn lemma_scan_oam_clock(ppu: PPU, n: nat)
    requires
        ppu.sprites_count <= 8,
    ensures
        ppu.same_clock(ppu.spec_scan_oam(n).0),
        ppu.cycles == ppu.spec_scan_oam(n).0.cycles,
        ppu.screen == ppu.spec_scan_oam(n).0.screen,
        ppu.nmi_interrupt == ppu.spec_scan_oam(n).0.nmi_interrupt,
        ppu.spec_scan_oam(n).0.sprites_count <= 8,
    decreases n,
{
    if n > 0 {
        lemma_scan_oam_clock(ppu, (n - 1) as nat);
    }
}

/// Moving all shifters on keeps the position.
pub proof fn lemma_update_sprite_shifters_clock(ppu: PPU)
    ensures
        ppu.same_clock(ppu.spec_update_sprite_shifters()),
        ppu.same_position(ppu.spec_update_sprite_shifters()),
        ppu.nmi_interrupt == ppu.spec_update_sprite_shifters().nmi_interrupt,
{
    let shifted = ppu.spec_update_background_shifters();
    lemma_shift_sprites_clock(shifted, shifted.sprites_count as nat);
}

/// A step of the background fetch cycle keeps the position.
pub proof fn lemma_load_background_info_clock(ppu: PPU, cart: CartridgeView)
    ensures
        ppu.same_clock(ppu.spec_load_background_info(cart)),
        ppu.same_position(ppu.spec_load_background_info(cart)),
        ppu.nmi_interrupt == ppu.spec_load_background_info(cart).nmi_interrupt,
{
}

/// The scroll moves of dots 256 and 257 keep the position.
pub proof fn lemma_scroll_moves_clock(ppu: PPU)
    ensures
        ppu.same_clock(ppu.spec_increment_scroll_y()),
        ppu.same_position(ppu.spec_increment_scroll_y()),
        ppu.nmi_interrupt == ppu.spec_increment_scroll_y().nmi_interrupt,
        ppu.same_clock(ppu.spec_load_background_shifters().spec_transfer_x_address()),
        ppu.same_position(ppu.spec_load_background_shifters().spec_transfer_x_address()),
        ppu.nmi_interrupt == ppu.spec_load_background_shifters().spec_transfer_x_address().nmi_interrupt,
        ppu.same_clock(ppu.spec_new_frame_reset()),
        ppu.same_position(ppu.spec_new_frame_reset()),
        ppu.nmi_interrupt == ppu.spec_new_frame_reset().nmi_interrupt,
{
}

/// The background half of a dot keeps the line and, but for the skipped
/// dot, the dot.
pub proof fn lemma_background_stage_clock(ppu: PPU, cart: CartridgeView)
    requires
        ppu.wf(),
    ensures
        ppu.same_clock(ppu.spec_background_stage(cart)),
        ppu.spec_background_stage(cart).cycles == if ppu.skips_dot() {
            1
        } else {
            ppu.cycles
        },
        ppu.spec_background_stage(cart).sprites_count == ppu.sprites_count,
        ppu.spec_background_stage(cart).screen == ppu.screen,
        ppu.spec_background_stage(cart).nmi_interrupt == ppu.nmi_interrupt,
{
    let skipped = if ppu.skips_dot() {
        PPU { cycles: 1, ..ppu }
    } else {
        ppu
    };
    lemma_scroll_moves_clock(skipped);
    let prepared = if skipped.scanlines == -1 && skipped.cycles == 1 {
        skipped.spec_new_frame_reset()
    } else {
        skipped
    };
    lemma_update_sprite_shifters_clock(prepared);
    lemma_load_background_info_clock(prepared.spec_update_sprite_shifters(), cart);
    let fetched = if (prepared.cycles >= 2 && prepared.cycles <= 257) || (prepared.cycles >= 321 && prepared.cycles <= 337) {
        prepared.spec_update_sprite_shifters().spec_load_background_info(cart)
    } else {
        prepared
    };
    lemma_scroll_moves_clock(fetched);
    let scrolled = if fetched.cycles == 256 {
        fetched.spec_increment_scroll_y()
    } else {
        fetched
    };
    lemma_scroll_moves_clock(scrolled);
    assert(ppu.spec_background_stage(cart) == if scrolled.cycles == 257 {
        scrolled.spec_load_background_shifters().spec_transfer_x_address()
    } else {
        scrolled
    });
}

/// The sprite half of a dot keeps the position.
pub proof fn lemma_sprite_stage_clock(ppu: PPU, cart: CartridgeView)
    requires
        ppu.wf(),
    ensures
        ppu.same_clock(ppu.spec_sprite_stage(cart)),
        ppu.spec_sprite_stage(cart).cycles == ppu.cycles,
        ppu.spec_sprite_stage(cart).screen == ppu.screen,
        ppu.spec_sprite_stage(cart).sprites_count <= 8,
        ppu.spec_sprite_stage(cart).nmi_interrupt == ppu.nmi_interrupt,
{
    let cleared = PPU {
        sprites_count: 0,
        sprite_shifter_pattern_low: vstd::array::spec_array_fill_for_copy_type::<u8, 8>(0u8),
        sprite_shifter_pattern_high: vstd::array::spec_array_fill_for_copy_type::<u8, 8>(0u8),
        ..ppu.spec_clear_sprites()
    };
    lemma_scan_oam_clock(cleared, 64);
    let p = ppu.spec_evaluate_sprites();
    let p = if p.cycles == 338 || p.cycles == 340 {
        PPU {
            next_background_tile_id: p.spec_read_from_internal_memory(
                cart,
                p.address_register.vram_address(),
            ),
            ..p
        }
    } else {
        p
    };
    lemma_prepare_sprites_clock(p, cart, p.sprites_count as nat);
}

/// The pixel stage of a dot keeps the position.
pub proof fn lemma_pixel_step_clock(ppu: PPU, cart: CartridgeView)
    ensures
        ppu.same_clock(ppu.spec_pixel_step(cart)),
        ppu.cycles == ppu.spec_pixel_step(cart).cycles,
        ppu.sprites_count == ppu.spec_pixel_step(cart).sprites_count,
        ppu.screen_in_range() ==> ppu.spec_pixel_step(cart).screen_in_range(),
        ppu.spec_pixel_step(cart).nmi_interrupt == ppu.nmi_interrupt,
{
}

/// What one dot does to the walk through the frame.
///
/// The position moves on by one dot, or by two over the skipped dot, and
/// from the last dot of a frame it wraps to the first of the next, which
/// reports the frame complete and turns the odd-frame flag over. The
/// interrupt is raised at dot 1 of line 241 and at no other dot, and there
/// only where the control register asks for it; a dot never lowers it. A
/// dot leaves the memories and the latches that the processor writes as
/// they are.
pub proof fn lemma_tick_walk(ppu: PPU, cart: CartridgeView)
    requires
        ppu.wf(),
    ensures
        ({
            let next = ppu.spec_tick(cart);
            let step: int = if ppu.skips_dot() {
                2
            } else {
                1
            };
            &&& next.wf()
            &&& next.mask_register == ppu.mask_register
            &&& next.control_register == ppu.control_register
            &&& ppu.same_memory(next)
            &&& ppu.frame_position() + step < DOTS_PER_FRAME ==> {
                &&& next.frame_position() == ppu.frame_position() + step
                &&& next.completed_frame == ppu.completed_frame
                &&& next.odd_frame == ppu.odd_frame
            }
            &&& ppu.frame_position() + step >= DOTS_PER_FRAME ==> {
                &&& next.frame_position() == 0
                &&& next.completed_frame
                &&& next.odd_frame == !ppu.odd_frame
            }
            &&& next.nmi_interrupt == (ppu.nmi_interrupt || (ppu.frame_position()
                == VBLANK_POSITION && ppu.control_register.contains(Controller::GENERATE_NMI)))
        }),
{
    lemma_background_stage_clock(ppu, cart);
    let background = ppu.spec_background_stage(cart);
    lemma_sprite_stage_clock(background, cart);
    let rendered = if ppu.spec_on_render_line() {
        ppu.spec_render_line_step(cart)
    } else {
        ppu
    };
    let checked = rendered.spec_check_nmi_interrupt();
    lemma_pixel_step_clock(checked, cart);
}

/// A dot leaves the memories and the latches that the processor writes as
/// they are, whatever state the picture unit is in.
pub proof fn lemma_tick_memory(ppu: PPU, cart: CartridgeView)
    ensures
        ppu.same_memory(ppu.spec_tick(cart)),
{
    let skipped = if ppu.skips_dot() {
        PPU { cycles: 1, ..ppu }
    } else {
        ppu
    };
    let prepared = if skipped.scanlines == -1 && skipped.cycles == 1 {
        skipped.spec_new_frame_reset()
    } else {
        skipped
    };
    lemma_update_sprite_shifters_clock(prepared);
    lemma_load_background_info_clock(prepared.spec_update_sprite_shifters(), cart);
    let fetched = if (prepared.cycles >= 2 && prepared.cycles <= 257) || (prepared.cycles >= 321 && prepared.cycles <= 337) {
        prepared.spec_update_sprite_shifters().spec_load_background_info(cart)
    } else {
        prepared
    };
    let scrolled = if fetched.cycles == 256 {
        fetched.spec_increment_scroll_y()
    } else {
        fetched
    };
    let background = ppu.spec_background_stage(cart);
    assert(background == if scrolled.cycles == 257 {
        scrolled.spec_load_background_shifters().spec_transfer_x_address()
    } else {
        scrolled
    });
    assert(ppu.same_memory(background));
    let cleared = PPU {
        sprites_count: 0,
        sprite_shifter_pattern_low: vstd::array::spec_array_fill_for_copy_type::<u8, 8>(0u8),
        sprite_shifter_pattern_high: vstd::array::spec_array_fill_for_copy_type::<u8, 8>(0u8),
        ..background.spec_clear_sprites()
    };
    lemma_scan_oam_memory(cleared, 64);
    let q = background.spec_evaluate_sprites();
    let q = if q.cycles == 338 || q.cycles == 340 {
        PPU {
            next_background_tile_id: q.spec_read_from_internal_memory(
                cart,
                q.address_register.vram_address(),
            ),
            ..q
        }
    } else {
        q
    };
    lemma_prepare_sprites_clock(q, cart, q.sprites_count as nat);
    assert(ppu.same_memory(background.spec_sprite_stage(cart)));
    let rendered = if ppu.spec_on_render_line() {
        ppu.spec_render_line_step(cart)
    } else {
        ppu
    };
    let checked = rendered.spec_check_nmi_interrupt();
    lemma_pixel_step_clock(checked, cart);
}

/// Selecting sprites leaves the memories as they are, whatever the state.
pub proof fn lemma_scan_oam_memory(ppu: PPU, n: nat)
    ensures
        ppu.same_memory(ppu.spec_scan_oam(n).0),
    decreases n,
{
    if n > 0 {
        lemma_scan_oam_memory(ppu, (n - 1) as nat);
    }
}

impl BusView {
    /// Whether the picture unit stands at the first dot of a frame with
    /// the last frame's completion taken note of.
    pub open spec fn at_frame_start(self) -> bool {
        self.ppu.scanlines == -1 && self.ppu.cycles == 0 && !self.ppu.completed_frame
    }

    /// How many dots the frame skips: one with rendering on, else none.
    pub open spec fn frame_skip(self) -> int {
        if self.ppu.mask_register.is_render_enabled() {
            1
        } else {
            0
        }
    }

    /// What running dots leaves alone: work RAM, the controllers, the
    /// cycle counter, the cartridge, and of the picture unit what only the
    /// processor can change.
    pub open spec fn same_outside(self, other: BusView) -> bool {
        &&& self.cpu_memory == other.cpu_memory
        &&& self.joypads == other.joypads
        &&& self.cpu_cycles == other.cpu_cycles
        &&& self.cartridge == other.cartridge
        &&& self.ppu.same_memory(other.ppu)
    }
}

/// The position that `n` dots from the start of a frame lead to, where
/// the frame skips `skip` dots: the skipped dot is the one after dot 341.
pub open spec fn position_after(n: nat, skip: int) -> int {
    if n <= 341 {
        n as int
    } else {
        n + skip
    }
}

/// The cartridges of this machine take no notice of scanlines.
pub proof fn lemma_notify_keeps_cartridge(ppu: PPU, cart: CartridgeView)
    ensures
        ppu.spec_notify_cartridge(cart) == cart,
{
}

/// Running dots changes the picture unit alone.
pub proof fn lemma_run_dots_outside(bus: BusView, n: nat)
    ensures
        bus.same_outside(bus.run_dots(n)),
    decreases n,
{
    if n > 0 {
        lemma_run_dots_outside(bus, (n - 1) as nat);
        let before = bus.run_dots((n - 1) as nat);
        lemma_notify_keeps_cartridge(before.ppu, before.cartridge);
        lemma_tick_memory(before.ppu, before.cartridge);
    }
}

/// Within a frame the dots lead through the positions in order: `n` dots
/// from the start of a frame the picture unit stands at
/// `position_after(n, skip)`, the frame is not complete, and the register
/// images are as they were.
pub proof fn lemma_run_dots_walk(bus: BusView, n: nat)
    requires
        bus.wf(),
        bus.at_frame_start(),
        position_after(n, bus.frame_skip()) < DOTS_PER_FRAME,
    ensures
        bus.run_dots(n).wf(),
        bus.run_dots(n).ppu.mask_register == bus.ppu.mask_register,
        bus.run_dots(n).ppu.control_register == bus.ppu.control_register,
        bus.run_dots(n).ppu.frame_position() == position_after(n, bus.frame_skip()),
        !bus.run_dots(n).ppu.completed_frame,
        bus.run_dots(n).ppu.odd_frame == bus.ppu.odd_frame,
    decreases n,
{
    if n > 0 {
        lemma_run_dots_walk(bus, (n - 1) as nat);
        let before = bus.run_dots((n - 1) as nat);
        lemma_tick_walk(before.ppu, before.cartridge);
        lemma_notify_keeps_cartridge(before.ppu, before.cartridge);
        assert(before.ppu.skips_dot() <==> (n - 1 == 341 && bus.frame_skip() == 1));
    }
}

/// A frame lasts 89342 dots, or 89341 with rendering on: so many dots
/// after its start, and not before, the frame is complete and the picture
/// unit stands at the start of the next one, with odd and even exchanged.
pub proof fn lemma_frame_length(bus: BusView, n: nat)
    requires
        bus.wf(),
        bus.at_frame_start(),
    ensures
        n < DOTS_PER_FRAME - bus.frame_skip() ==> !bus.run_dots(n).ppu.completed_frame,
        ({
            let end = bus.run_dots((DOTS_PER_FRAME - bus.frame_skip()) as nat);
            &&& end.wf()
            &&& end.ppu.completed_frame
            &&& end.ppu.frame_position() == 0
            &&& end.ppu.odd_frame == !bus.ppu.odd_frame
            &&& end.ppu.mask_register == bus.ppu.mask_register
        }),
{
    if n < DOTS_PER_FRAME - bus.frame_skip() {
        lemma_run_dots_walk(bus, n);
    }
    let last = (DOTS_PER_FRAME - bus.frame_skip() - 1) as nat;
    lemma_run_dots_walk(bus, last);
    let before = bus.run_dots(last);
    lemma_tick_walk(before.ppu, before.cartridge);
    lemma_notify_keeps_cartridge(before.ppu, before.cartridge);
    assert(bus.run_dots((last + 1) as nat).ppu == before.ppu.spec_tick(before.cartridge));
}

/// Once a frame is complete, further dots leave it complete until the
/// flag is lowered from outside.
pub proof fn lemma_completion_stays(bus: BusView, n: nat)
    requires
        bus.wf(),
        bus.ppu.completed_frame,
    ensures
        bus.run_dots(n).wf(),
        bus.run_dots(n).ppu.completed_frame,
    decreases n,
{
    if n > 0 {
        lemma_completion_stays(bus, (n - 1) as nat);
        let before = bus.run_dots((n - 1) as nat);
        lemma_tick_walk(before.ppu, before.cartridge);
        lemma_notify_keeps_cartridge(before.ppu, before.cartridge);
    }
}

/// From the start of a frame the picture unit has not completed the frame
/// after 29780 processor cycles and has completed it after 29781.
pub proof fn lemma_frame_cycles(bus: BusView)
    requires
        bus.wf(),
        bus.at_frame_start(),
    ensures
        !bus.tick(29780).ppu.completed_frame,
        bus.tick(29781).ppu.completed_frame,
        bus.tick(29780).cpu_cycles == bus.cpu_cycles.wrapping_add(29780),
        bus.tick(29781).cpu_cycles == bus.cpu_cycles.wrapping_add(29781),
{
    reveal(BusView::tick);
    lemma_frame_length(bus, 89340);
    let length = (DOTS_PER_FRAME - bus.frame_skip()) as nat;
    let rest = (89343 - length) as nat;
    lemma_run_dots_add(bus, length, rest);
    lemma_completion_stays(bus.run_dots(length), rest);
    assert(bus.tick(29780).ppu == bus.run_dots(89340).ppu);
    assert(bus.tick(29781).ppu == bus.run_dots(89343).ppu);
}

/// Within a frame the picture unit stands at dot 1 of line 241 once: after
/// 82523 dots, less the skipped one. The dot that follows raises the
/// interrupt where the control register asks for it, and no other dot of
/// the frame changes it.
pub proof fn lemma_interrupt_once_per_frame(bus: BusView, n: nat)
    requires
        bus.wf(),
        bus.at_frame_start(),
        n < DOTS_PER_FRAME - bus.frame_skip(),
    ensures
        (bus.run_dots(n).ppu.frame_position() == VBLANK_POSITION) == (n == VBLANK_POSITION
            - bus.frame_skip()),
        bus.run_dots(n + 1).ppu.nmi_interrupt == (bus.run_dots(n).ppu.nmi_interrupt || (n
            == VBLANK_POSITION - bus.frame_skip() && bus.ppu.control_register.contains(
            Controller::GENERATE_NMI,
        ))),
{
    lemma_run_dots_walk(bus, n);
    let before = bus.run_dots(n);
    lemma_tick_walk(before.ppu, before.cartridge);
    assert(bus.run_dots(n + 1).ppu == before.ppu.spec_tick(before.cartridge));
}

} // verus!
