//! When register writes show.

use vstd::prelude::*;

use crate::history::{col_reached, col_value, dot_reached, dot_value, law_append_keeps_the_past};
use crate::irq_laws::in_cycles;
use crate::lcdc_write::law_cgb_write_shows_in_two_cycles;
use crate::mmio::Mmio;
use crate::state::{Clk, PpuView, State};

verus! {

/// The same state when the picture unit's clock reads `cc`.
pub open spec fn at_clock(s: PpuView, cc: u64) -> PpuView {
    PpuView { clk: Clk { abs_cc: cc, ..s.clk }, ..s }
}

/// The clock reading of a write: at double speed it can fall between two dots.
pub open spec fn written_at(s: PpuView, ds: bool) -> int {
    s.clk.abs_cc + if ds { s.speed.write_subdot as int } else { 0 }
}

/// An SCY write reaches the fetcher two cycles later; until then the old value
/// holds. SCX and WY are left alone.
pub proof fn law_scy_write_shows(s: PpuView, m: Mmio, value: u8, cc: u64)
    requires
        s.latch.scy_apply_cc == 0xFFFF_FFFF_FFFF_FFFF,
        written_at(s, m.double_speed) + 2 < 0xFFFF_FFFF_FFFF_FFFF,
    ensures
        ({
            let w = s.on_scy_write(value, m);
            let r = at_clock(w, cc).due_writes(m);
            &&& w.latch.scy_delayed == s.latch.scy_delayed
            &&& r.latch.scy_delayed == if cc >= written_at(s, m.double_speed) + 2 {
                value
            } else {
                s.latch.scy_delayed
            }
            &&& r.latch.scx_delayed == at_clock(s, cc).due_writes(m).latch.scx_delayed
            &&& r.latch.wy1 == at_clock(s, cc).due_writes(m).latch.wy1
            &&& r.latch.wy2 == at_clock(s, cc).due_writes(m).latch.wy2
            &&& w.clk.sched_min == 0
        }),
{
    reveal(PpuView::due_writes);
    reveal(crate::state::Latch::applied);
}

/// An SCX write reaches the fetcher two cycles later, and the fine scroll two
/// cycles later on CGB, at once on DMG.
pub proof fn law_scx_write_shows(s: PpuView, m: Mmio, value: u8, cc: u64)
    requires
        s.latch.scx_apply_cc == 0xFFFF_FFFF_FFFF_FFFF,
        s.latch.scx_f1_apply_cc == 0xFFFF_FFFF_FFFF_FFFF,
        written_at(s, m.double_speed) + 2 < 0xFFFF_FFFF_FFFF_FFFF,
    ensures
        ({
            let w = s.on_scx_write(value, m);
            let r = at_clock(w, cc).due_writes(m);
            let fine_at = written_at(s, m.double_speed) + if m.cgb_features { 2int } else { 0 };
            &&& w.latch.scx_delayed == s.latch.scx_delayed
            &&& r.latch.scx_delayed == if cc >= written_at(s, m.double_speed) + 2 {
                value
            } else {
                s.latch.scx_delayed
            }
            &&& w.scx_f1_pending_at_cc(cc) == if cc >= fine_at { value } else { s.latch.scx_prev_f1 }
            &&& r.latch.scy_delayed == at_clock(s, cc).due_writes(m).latch.scy_delayed
            &&& r.latch.wy1 == at_clock(s, cc).due_writes(m).latch.wy1
            &&& r.latch.wy2 == at_clock(s, cc).due_writes(m).latch.wy2
            &&& w.clk.sched_min == 0
        }),
{
    reveal(PpuView::due_writes);
    reveal(crate::state::Latch::applied);
}

/// A WY write reaches the comparison that latches the window two cycles later,
/// and that of the current line four, seven on CGB.
pub proof fn law_wy_write_shows(s: PpuView, m: Mmio, value: u8, cc: u64)
    requires
        s.latch.wy1_apply_cc == 0xFFFF_FFFF_FFFF_FFFF,
        s.latch.wy2_apply_cc == 0xFFFF_FFFF_FFFF_FFFF,
        written_at(s, m.double_speed) + 7 < 0xFFFF_FFFF_FFFF_FFFF,
    ensures
        ({
            let w = s.on_wy_write(value, m);
            let r = at_clock(w, cc).due_writes(m);
            let at = written_at(s, m.double_speed);
            &&& r.latch.wy1 == if cc >= at + 2 { value } else { s.latch.wy1 }
            &&& r.latch.wy2 == if cc >= at + (if m.cgb_features { 7int } else { 4 }) {
                value
            } else {
                s.latch.wy2
            }
            &&& r.latch.scx_delayed == at_clock(s, cc).due_writes(m).latch.scx_delayed
            &&& r.latch.scy_delayed == at_clock(s, cc).due_writes(m).latch.scy_delayed
            &&& w.clk.sched_min == 0
        }),
{
    reveal(PpuView::due_writes);
    reveal(crate::state::Latch::applied);
}

/// A WY write that meets the current line's number arms the window four cycles
/// later, with the window switched on and from the line's fourth dot on; near
/// the line's end on CGB at single speed it goes by the next line.
pub proof fn law_wy_write_can_arm_the_window(s: PpuView, m: Mmio, value: u8, cc: u64)
    requires
        !s.win.window_y_triggered,
        written_at(s, m.double_speed) + 7 < 0xFFFF_FFFF_FFFF_FFFF,
    ensures
        ({
            let r = at_clock(s.on_wy_write(value, m), cc).due_writes(m);
            let line = if m.cgb_features && !m.double_speed && s.ticks >= 450 {
                m.ly + 1
            } else {
                m.ly as int
            };
            r.win.window_y_triggered == (cc >= written_at(s, m.double_speed) + 4 && s.lcdc.reg
                & 0x20 != 0 && s.ticks >= 3 && value == line)
        }),
{
    reveal(PpuView::due_writes);
    reveal(crate::state::Latch::applied);
}

/// A STAT write schedules the interrupts by the new value. On DMG in the first
/// dots of a frame it takes the request for vertical blank back; it changes no
/// other request.
pub proof fn law_stat_write_takes_hold(s: PpuView, m: Mmio)
    requires
        !s.disabled,
    ensures
        ({
            let (r, n) = s.on_stat_write(m);
            let takes_back = !m.cgb_hardware && s.clk.l154_vblank_glitch_window;
            &&& r.clk.stat_reg_committed == m.stat
            &&& r.clk.lyc_irq.stat_reg == m.stat
            &&& r.clk.sched_min == 0
            &&& m.stat & 0x40 == 0 ==> r.clk.sched_lycirq == 0xFFFF_FFFF_FFFF_FFFF
            &&& m.stat & 0x20 == 0 ==> r.clk.sched_m2irq == 0xFFFF_FFFF_FFFF_FFFF
            &&& r.clk.sched_m0irq == s.clk.sched_m0irq
            &&& takes_back ==> n.irq & 0x01 == 0 && n.irq & 0xFE == m.irq & 0xFE
            &&& !takes_back ==> n.irq == m.irq
            &&& n.stat == m.stat
        }),
{
    reveal(crate::stat_irq::schedule_lyc);
    reveal(crate::stat_irq::schedule_m2);
    let irq = m.irq;
    assert((irq & !0x01u8) & 0x01 == 0 && (irq & !0x01u8) & 0xFE == irq & 0xFE) by (bit_vector);
}

/// In CGB mode an LCDC write shows its tile data bit after one cycle and all of
/// it after two.
pub proof fn law_lcdc_write_shows_bit_4_first(s: PpuView, m: Mmio, value: u8)
    requires
        m.cgb_features,
        s.lcdc.reg & 0x80 != 0,
        value & 0x80 != 0,
    ensures
        ({
            let w = s.handle_lcdc_write(value, m);
            let first = w.step_lcdc_events(m);
            let second = first.step_lcdc_events(m);
            &&& w.lcdc.reg == s.lcdc.reg
            &&& first.lcdc.reg & 0x10 == value & 0x10
            &&& first.lcdc.reg & 0xEF == s.lcdc.reg & 0xEF
            &&& second.lcdc.reg == value
        }),
{
    law_cgb_write_shows_in_two_cycles(s, value, m);
    let old = s.lcdc.reg;
    assert(((old & !0x10u8) | (value & 0x10)) & 0x10 == value & 0x10 && ((old & !0x10u8) | (value
        & 0x10)) & 0xEF == old & 0xEF) by (bit_vector);
}

proof fn lemma_all_reached(hist: Seq<(u64, u8)>, at: u64, n: int)
    requires
        0 <= n <= hist.len(),
        forall|k: int| 0 <= k < hist.len() ==> (#[trigger] hist[k]).0 <= at,
    ensures
        col_reached(hist, at, n) == hist.len(),
    decreases hist.len() - n,
{
    if n < hist.len() {
        lemma_all_reached(hist, at, n + 1);
    }
}

proof fn lemma_all_reached_dot(hist: Seq<(u128, u8)>, at: u128, n: int)
    requires
        0 <= n <= hist.len(),
        forall|k: int| 0 <= k < hist.len() ==> (#[trigger] hist[k]).0 <= at,
    ensures
        dot_reached(hist, at, n) == hist.len(),
    decreases hist.len() - n,
{
    if n < hist.len() {
        lemma_all_reached_dot(hist, at, n + 1);
    }
}

/// An entry holds from its own position on, where none lies further right.
pub proof fn law_last_entry_holds_from_its_column(
    hist: Seq<(u64, u8)>,
    entry: (u64, u8),
    at: u64,
    fallback: u8,
)
    requires
        forall|k: int| 0 <= k < hist.len() ==> (#[trigger] hist[k]).0 <= entry.0,
        at >= entry.0,
    ensures
        col_value(hist.push(entry), at, fallback) == entry.1,
{
    lemma_all_reached(hist.push(entry), at, 0);
}

proof fn lemma_last_dot(hist: Seq<(u128, u8)>, entry: (u128, u8), at: u128, fallback: u8)
    requires
        forall|k: int| 0 <= k < hist.len() ==> (#[trigger] hist[k]).0 <= entry.0,
        at >= entry.0,
    ensures
        dot_value(hist.push(entry), at, fallback) == entry.1,
{
    lemma_all_reached_dot(hist.push(entry), at, 0);
}

/// The shade that palette register `reg` gives colour `idx`: two bits a colour.
pub open spec fn shade_of(reg: u8, idx: u8) -> u8 {
    if idx == 0 {
        reg % 4
    } else if idx == 1 {
        (reg / 4) % 4
    } else if idx == 2 {
        (reg / 16) % 4
    } else {
        (reg / 64) % 4
    }
}

/// On CGB hardware a BGP write among a line's pixels shows from the next column
/// on, and the columns before keep what they had.
pub proof fn law_bgp_write_shows_from_the_next_column(
    s: PpuView,
    m: Mmio,
    value: u8,
    idx: u8,
    sx: u8,
)
    requires
        !s.disabled,
        s.state == State::PixelTransfer,
        m.cgb_hardware,
        s.x < 160,
        idx < 4,
        s.hist.bgp.len() > 0,
        forall|k: int| 0 <= k < s.hist.bgp.len() ==> (#[trigger] s.hist.bgp[k]).0 <= s.x + 1,
    ensures
        ({
            let r = s.on_bgp_write(value, m);
            r.palette_color(m, idx, sx) == if sx > s.x {
                shade_of(value, idx)
            } else {
                s.palette_color(m, idx, sx)
            }
        }),
{
    reveal(PpuView::on_bgp_write);
    let entry = ((s.x + 1) as u64, value);
    if sx > s.x {
        law_last_entry_holds_from_its_column(s.hist.bgp, entry, sx as u64, s.plot.bgp_delayed);
    } else {
        law_append_keeps_the_past(s.hist.bgp, entry, sx as u64, s.plot.bgp_delayed);
    }
}

/// For a DMG cartridge on CGB hardware it shows from the next dot on.
pub proof fn law_bgp_write_shows_from_the_next_dot(
    s: PpuView,
    m: Mmio,
    value: u8,
    idx: u8,
    dot: u128,
)
    requires
        !s.disabled,
        s.state == State::PixelTransfer,
        idx < 4,
        s.ticks < 0x1_0000,
        dot > s.ticks,
        forall|k: int| 0 <= k < s.hist.bgp_dot.len() ==> (#[trigger] s.hist.bgp_dot[k]).0 <= s.ticks
            + 1,
    ensures
        s.on_bgp_write(value, m).palette_color_at_tick(idx, dot) == shade_of(value, idx),
{
    reveal(PpuView::on_bgp_write);
    lemma_last_dot(
        s.hist.bgp_dot,
        ((s.ticks + 1) as u128, value),
        dot,
        s.plot.bgp_delayed,
    );
}

/// The same for the object palettes: each write changes its own palette, from
/// the next dot and column on.
pub proof fn law_obp_write_shows_from_the_next_dot(
    s: PpuView,
    second: bool,
    value: u8,
    idx: u8,
    dot: u128,
    sx: u8,
)
    requires
        !s.disabled,
        s.state == State::PixelTransfer,
        1 <= idx < 4,
        s.ticks < 0x1_0000,
        s.x < 160,
        dot > s.ticks,
        sx > s.x,
        forall|k: int| 0 <= k < s.hist.obp0_dot.len() ==> (#[trigger] s.hist.obp0_dot[k]).0
            <= s.ticks + 1,
        forall|k: int| 0 <= k < s.hist.obp1_dot.len() ==> (#[trigger] s.hist.obp1_dot[k]).0
            <= s.ticks + 1,
        forall|k: int| 0 <= k < s.hist.obp0.len() ==> (#[trigger] s.hist.obp0[k]).0 <= s.x + 1,
        forall|k: int| 0 <= k < s.hist.obp1.len() ==> (#[trigger] s.hist.obp1[k]).0 <= s.x + 1,
    ensures
        ({
            let r = s.on_obp_write(second, value);
            &&& r.dmg_sprite_palette_shade(idx, second, dot) == shade_of(value, idx)
            &&& r.sprite_palette_color(idx, second, sx) == shade_of(value, idx)
            &&& r.dmg_sprite_palette_shade(idx, !second, dot) == s.dmg_sprite_palette_shade(
                idx,
                !second,
                dot,
            )
            &&& r.sprite_palette_color(idx, !second, sx) == s.sprite_palette_color(idx, !second, sx)
        }),
{
    reveal(PpuView::on_obp_write);
    let by_dot = ((s.ticks + 1) as u128, value);
    let by_col = ((s.x + 1) as u64, value);
    if second {
        lemma_last_dot(s.hist.obp1_dot, by_dot, dot, s.plot.obp1_delayed);
        law_last_entry_holds_from_its_column(
            s.hist.obp1,
            by_col,
            sx as u64,
            s.plot.obp1_delayed,
        );
    } else {
        lemma_last_dot(s.hist.obp0_dot, by_dot, dot, s.plot.obp0_delayed);
        law_last_entry_holds_from_its_column(
            s.hist.obp0,
            by_col,
            sx as u64,
            s.plot.obp0_delayed,
        );
    }
}

/// A BGP write during the scan shows from the line's first column on; with the
/// LCD off or between lines a palette write needs no note.
pub proof fn law_palette_writes_outside_drawing(s: PpuView, m: Mmio, value: u8)
    requires
        s.disabled || s.state != State::PixelTransfer,
    ensures
        s.on_obp_write(false, value) == s,
        s.on_obp_write(true, value) == s,
        s.disabled || s.state != State::OAMSearch ==> s.on_bgp_write(value, m) == s,
        !s.disabled && s.state == State::OAMSearch ==> ({
            let r = s.on_bgp_write(value, m);
            r.hist == s.hist && r.plot.bgp_mode2_pending is Some
                && r.plot.bgp_mode2_pending->0.value == value && r.plot.bgp_delayed
                == s.plot.bgp_delayed
        }),
{
    reveal(PpuView::on_obp_write);
    reveal(PpuView::on_bgp_write);
}

/// Drawing sees the palettes as they were on the dot before, BGP later still
/// while a write is held back.
pub proof fn law_palettes_reach_drawing_a_dot_late(s: PpuView, m: Mmio)
    requires
        s.ticks < 0x1_0000_0000,
    ensures
        ({
            let r = s.dot_end(m);
            let held = s.plot.bgp_defer_countdown;
            &&& r.ticks == s.ticks + 1
            &&& r.plot.obp0_delayed == m.obp0
            &&& r.plot.obp1_delayed == m.obp1
            &&& held == 0 ==> r.plot.bgp_delayed == m.bgp && r.plot.bgp_defer_countdown == 0
            &&& held > 0 ==> r.plot.bgp_delayed == s.plot.bgp_defer_hold
                && r.plot.bgp_defer_countdown == held - 1
        }),
{
}

/// On DMG hardware a BGP write among a line's pixels is held back as many dots as
/// it lies off the CPU's grid of four cycles.
pub proof fn law_bgp_write_is_held_back(s: PpuView, m: Mmio, value: u8)
    requires
        !s.disabled,
        s.state == State::PixelTransfer,
    ensures
        ({
            let r = s.on_bgp_write(value, m);
            &&& r.plot.bgp_defer_hold == s.plot.bgp_delayed
            &&& r.plot.bgp_defer_countdown == if m.cgb_hardware { 0 } else { m.master_cc % 4 }
            &&& r.plot.bgp_delayed == s.plot.bgp_delayed
        }),
{
    reveal(PpuView::on_bgp_write);
}

/// A dot moves the line counter on: 456 dots to a line, 154 lines to a frame.
pub proof fn law_a_dot_counts(s: PpuView, m: Mmio, fast: bool)
    requires
        s.clk.line_cycle < 456,
        s.clk.internal_ly_val < 154,
        s.clk.p_now <= m.master_cc,
    ensures
        ({
            let c = s.advanced_clock(m, fast);
            let before = 456 * s.clk.internal_ly_val + s.clk.line_cycle;
            let after = 456 * c.internal_ly_val + c.line_cycle;
            &&& c.line_cycle < 456
            &&& c.internal_ly_val < 154
            &&& after == if before + 1 < 70224 { before + 1 } else { 0 }
            &&& c.abs_cc == m.master_cc - s.clk.p_now
        }),
{
    reveal(PpuView::advanced_clock);
}

/// The interrupt at the end of mode 3 comes three dots before it, on CGB with fine
/// scroll 2 four, and on DMG on the line after switching on six; a disabled
/// source asks for none.
pub proof fn law_mode_0_interrupt_time(s: PpuView, m: Mmio, first: bool)
    requires
        s.m0.m0_time_master is Some,
        s.line.sprites.len() == 0,
        !s.window_will_start(m),
        s.m0.m0_time_master->0 >= crate::regs::signed(s.clk.p_now) + 20,
    ensures
        ({
            let early = if m.cgb_features {
                if m.scx % 8 == 2 { 4int } else { 3 }
            } else if first && !m.double_speed {
                6
            } else {
                3
            };
            s.m0irq_time(m, first) == if s.clk.stat_reg_committed & 0x08 == 0 {
                0xFFFF_FFFF_FFFF_FFFF
            } else {
                s.m0.m0_time_master->0 - crate::regs::signed(s.clk.p_now) - in_cycles(
                    early,
                    m.double_speed,
                )
            }
        }),
{
    crate::window_laws::law_plain_targets(s, m, m.cgb_features);
}

/// A DMA finds the address that the fetcher read last, while pixels are put out;
/// on DMG, in the four dots before, the map entry of the line's first tile.
pub proof fn law_dma_finds_the_fetch(s: PpuView, m: Mmio)
    ensures
        ({
            let n = s.dma_fetcher_bus(m);
            let on = !s.disabled && s.lcdc.reg & 0x80 != 0;
            let ahead = on && !m.cgb_features && s.state == State::OAMSearch
                && !s.clk.first_line_after_enable && 76 <= s.ticks < 80;
            let map = if s.lcdc.reg & 0x08 != 0 { 0x9C00int } else { 0x9800 };
            &&& n.fetcher_bus.0 == s.fetcher.last_vram_addr
            &&& n.fetcher_bus.1 == s.fetcher.last_vram_bank
            &&& n.fetcher_bus.2 == (on && s.state == State::PixelTransfer)
            &&& n.prefetch_bus.1 == ahead
            &&& ahead ==> n.prefetch_bus.0 == map + 32 * (((s.clk.internal_ly_val + m.scy) / 8)
                % 32) + m.scx / 8
        }),
{
}

/// The boot ROM leaves a CGB 164 dots into vertical blank, an AGB four more, a
/// DMG 396 dots into the last line, where LY shows 0, and the first DMG 198 dots
/// into line 145. STAT shows mode 1.
pub proof fn law_boot_rom_leaves_off(s: PpuView, m: Mmio, dmg0: bool)
    requires
        s.lcdc.reg & 0x80 != 0,
    ensures
        ({
            let (r, n) = s.post_bios(m, dmg0);
            let line = if m.cgb_features { 144int } else if dmg0 { 145 } else { 153 };
            let dot = if m.cgb_features {
                if m.agb_curve is Some { 168int } else { 164 }
            } else if dmg0 {
                198
            } else {
                396
            };
            &&& !r.disabled
            &&& r.state == State::VBlank
            &&& r.clk.internal_ly_val == line
            &&& r.clk.line_cycle == dot
            &&& r.ticks == dot
            &&& n.ly == if line == 153 { 0 } else { line }
            &&& n.stat & 0x03 == 1
            &&& (n.stat & 0x04 != 0) == (m.lyc == n.ly)
            &&& n.stat & 0xF8 == m.stat & 0xF8
        }),
{
    reveal(PpuView::post_bios_clock);
    let stat = m.stat;
    let got = s.post_bios(m, dmg0).1.stat;
    assert(((((stat & 0xFC) | (1u8 & 0x03)) | 0x04u8) & 0x07) == 5 && ((((stat & 0xFC) | (1u8
        & 0x03)) & 0xFBu8) & 0x07) == 1 && ((((stat & 0xFC) | (1u8 & 0x03)) | 0x04u8) & 0xF8)
        == stat & 0xF8 && ((((stat & 0xFC) | (1u8 & 0x03)) & 0xFBu8) & 0xF8) == stat & 0xF8 && (got & 0x07 == 5 ==> got & 0x03 == 1 && got & 0x04 != 0) && (got & 0x07 == 1 ==> got
        & 0x03 == 1 && got & 0x04 == 0)) by (bit_vector);
}

} // verus!
