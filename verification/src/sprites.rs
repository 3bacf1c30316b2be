//! What sprite selection selects.

use vstd::prelude::*;
use crate::ppu::PPU;
use crate::timing::{lemma_scan_oam_clock, lemma_scan_oam_memory};

verus! {

impl PPU {
    /// How many of the first `n` entries of object attribute memory cover
    /// the current line.
    pub open spec fn covering(self, n: nat) -> nat
        decreases n,
    {
        if n == 0 {
            0
        } else if self.spec_sprite_in_range(n - 1) {
            self.covering((n - 1) as nat) + 1
        } else {
            self.covering((n - 1) as nat)
        }
    }
}

/// Whether an entry covers the line depends on the line, the sprite
/// height and the entry alone.
proof fn lemma_in_range_stays(before: PPU, after: PPU, i: int)
    requires
        before.scanlines == after.scanlines,
        before.control_register == after.control_register,
        before.oam_sprites == after.oam_sprites,
    ensures
        before.spec_sprite_in_range(i) == after.spec_sprite_in_range(i),
{
}

/// What a scan of the first `n` entries selects, starting with no sprite
/// selected: the entries that cover the line, in their order, up to eight
/// of them. Entry `i`, where it covers the line and fewer than eight before
/// it do, takes the slot numbered by how many before it do. A ninth such
/// entry is reported, and entry 0 among the selected arms the sprite-zero
/// flag.
pub proof fn lemma_scan_selects_covering(ppu: PPU, n: nat, i: int)
    requires
        ppu.sprites_count == 0,
        n <= 64,
    ensures
        ({
            let (scanned, ninth) = ppu.spec_scan_oam(n);
            &&& scanned.sprites_count == if ppu.covering(n) <= 8 {
                ppu.covering(n)
            } else {
                8
            }
            &&& ninth == (ppu.covering(n) > 8)
            &&& scanned.has_sprite_zero_hit == (ppu.has_sprite_zero_hit || (n > 0
                && ppu.spec_sprite_in_range(0)))
            &&& 0 <= i < n && ppu.spec_sprite_in_range(i) && ppu.covering(i as nat) < 8
                ==> scanned.scanline_sprites[ppu.covering(i as nat) as int] == ppu.oam_sprites[i]
        }),
    decreases n,
{
    if n > 0 {
        lemma_scan_selects_covering(ppu, (n - 1) as nat, i);
        let before = ppu.spec_scan_oam((n - 1) as nat).0;
        lemma_scan_oam_clock(ppu, (n - 1) as nat);
        lemma_scan_oam_memory(ppu, (n - 1) as nat);
        lemma_in_range_stays(ppu, before, n - 1);
        if 0 <= i < n - 1 {
            lemma_covering_monotone(ppu, i as nat, (n - 1) as nat);
        }
    }
}

/// The count of covering entries does not fall as more are counted, and
/// an entry that covers the line counts for one.
pub proof fn lemma_covering_monotone(ppu: PPU, i: nat, n: nat)
    requires
        i < n,
    ensures
        ppu.covering(i) <= ppu.covering(n),
        ppu.spec_sprite_in_range(i as int) ==> ppu.covering(i) < ppu.covering(n),
        ppu.covering(n) <= n,
    decreases n,
{
    if i + 1 < n {
        lemma_covering_monotone(ppu, i, (n - 1) as nat);
    } else {
        lemma_covering_bound(ppu, i);
    }
}

/// No more entries cover the line than there are.
pub proof fn lemma_covering_bound(ppu: PPU, n: nat)
    ensures
        ppu.covering(n) <= n,
    decreases n,
{
    if n > 0 {
        lemma_covering_bound(ppu, (n - 1) as nat);
    }
}

} // verus!
