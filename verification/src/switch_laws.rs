//! LCDC writes in the middle of a line: what they show and what they do to the
//! line's length.

use vstd::prelude::*;

use crate::irq_laws::in_cycles;
use crate::line_objs::sprite_xs;
use crate::mmio::Mmio;
use crate::object_laws::{first_over_tile, law_one_more_object_costs};
use crate::objects::{ascending, walk_cost, Sprite, SpriteFetchPhase};
use crate::state::{PpuView, State};

verus! {

/// While pixels are put out the write `value` switches objects and nothing else
/// that matters to the line's length.
pub open spec fn switches_objects(s: PpuView, value: u8) -> bool {
    &&& s.state == State::PixelTransfer
    &&& s.m0.scheduled_mode0_dot is Some
    &&& (s.lcdc.reg & 0x02 != 0) != (value & 0x02 != 0)
    &&& (s.lcdc.reg & 0x20 != 0) == (value & 0x20 != 0)
    &&& (s.lcdc.reg & 0x04 != 0) == (value & 0x04 != 0)
}

/// On CGB switching objects leaves the line's length alone: they are fetched
/// either way.
pub proof fn law_cgb_objects_cost_either_way(s: PpuView, value: u8, ds: bool)
    requires
        switches_objects(s, value),
    ensures
        s.set_lcdc_visible(value, true, ds).m0 == s.m0,
        s.set_lcdc_visible(value, true, ds).lcdc.reg == value,
{
    reveal(PpuView::set_lcdc_visible);
    reveal(PpuView::m0_after_obj_toggle);
}

proof fn lemma_alone(sprites: Seq<Sprite>, scx: int)
    requires
        sprites.len() == 1,
        0 <= scx < 8,
        sprites[0].x <= 167,
    ensures
        walk_cost(ascending(sprite_xs(sprites)), scx, 167, 167, true) == first_over_tile(
            sprites[0].x as int,
            scx,
        ),
{
    let base = sprite_xs(sprites);
    let xs = ascending(base);
    let leq = |a: i32, b: i32| a <= b;
    base.lemma_sort_by_ensures(leq);
    vstd::seq_lib::to_multiset_len(base);
    vstd::seq_lib::to_multiset_len(xs);
    assert(xs.contains(xs[0]));
    assert(base.contains(xs[0]));
    let none = Seq::<i32>::empty();
    assert(none.push(base[0]) =~= xs);
    law_one_more_object_costs(none, base[0], scx, 167, 167);
}

proof fn lemma_none(sprites: Seq<Sprite>, scx: int)
    requires
        sprites.len() == 0,
    ensures
        walk_cost(ascending(sprite_xs(sprites)), scx, 167, 167, true) == 0,
{
    let base = sprite_xs(sprites);
    let leq = |a: i32, b: i32| a <= b;
    base.lemma_sort_by_ensures(leq);
    vstd::seq_lib::to_multiset_len(base);
    vstd::seq_lib::to_multiset_len(ascending(base));
}

/// On DMG switching objects off gives back what the line's one object, still to
/// come, would have cost.
pub proof fn law_objects_off_gives_dots_back(s: PpuView, value: u8, ds: bool)
    requires
        switches_objects(s, value),
        value & 0x02 == 0,
        s.line.sprites.len() == 1,
        s.line.sprites[0].x <= 167,
        s.objs.next_sprite_fetch_index == 0,
        s.m0.m0_time_master is Some,
        s.m0.m0_time_master->0 >= 100,
    ensures
        ({
            let r = s.set_lcdc_visible(value, false, ds);
            let cost = first_over_tile(
                s.line.sprites[0].x as int,
                (s.m3.m3_arm_scx % 8) as int,
            );
            &&& r.m0.m0_time_master is Some
            &&& r.m0.m0_time_master->0 == s.m0.m0_time_master->0 - in_cycles(cost, ds)
            &&& r.lcdc.reg == value
        }),
{
    reveal(PpuView::set_lcdc_visible);
    reveal(PpuView::m0_after_obj_toggle);
    reveal(PpuView::remaining_sprite_cost);
    assert(s.line.sprites.skip(0) =~= s.line.sprites);
    lemma_alone(s.line.sprites, (s.m3.m3_arm_scx % 8) as int);
}

/// Switching them on adds its cost if it lies right of the drawing position, and
/// nothing if drawing has passed it.
pub proof fn law_objects_on_adds_dots(s: PpuView, value: u8, ds: bool)
    requires
        switches_objects(s, value),
        value & 0x02 != 0,
        s.line.sprites.len() == 1,
        s.line.sprites[0].x <= 167,
        s.m0.m0_time_master is Some,
        s.m0.m0_time_master->0 < 0x4000_0000_0000_0000,
    ensures
        ({
            let r = s.set_lcdc_visible(value, false, ds);
            let x = s.line.sprites[0].x;
            let cost = if x > s.x + 8 {
                first_over_tile(x as int, (s.m3.m3_arm_scx % 8) as int)
            } else {
                0
            };
            &&& r.m0.m0_time_master is Some
            &&& r.m0.m0_time_master->0 == s.m0.m0_time_master->0 + in_cycles(cost, ds)
            &&& r.lcdc.reg == value
        }),
{
    reveal(PpuView::set_lcdc_visible);
    reveal(PpuView::m0_after_obj_toggle);
    reveal(PpuView::remaining_sprite_cost);
    let cutoff = (s.x + 8) as i32;
    let keep = |o: Sprite| o.x as i32 > cutoff;
    let all = s.line.sprites;
    let left = all.filter(keep);
    reveal(Seq::filter);
    assert(all.drop_last() =~= Seq::<Sprite>::empty());
    assert(all.drop_last().filter(keep) =~= Seq::<Sprite>::empty());
    if all[0].x > s.x + 8 {
        assert(left =~= all);
        lemma_alone(left, (s.m3.m3_arm_scx % 8) as int);
    } else {
        assert(left =~= Seq::<Sprite>::empty());
        lemma_none(left, (s.m3.m3_arm_scx % 8) as int);
    }
}

/// The write switches the window, and objects are left as they are.
pub open spec fn switches_window(s: PpuView, value: u8) -> bool {
    &&& s.state == State::PixelTransfer
    &&& (s.lcdc.reg & 0x20 != 0) != (value & 0x20 != 0)
    &&& (s.lcdc.reg & 0x02 != 0) == (value & 0x02 != 0)
    &&& (s.lcdc.reg & 0x04 != 0) == (value & 0x04 != 0)
}

/// The dot by which the window has to be switched on to start on this line.
pub open spec fn last_chance(s: PpuView, cgb: bool) -> int {
    let wx = s.m0.m3_scheduled_wx;
    s.m3.m3_arm_dot + s.m3.m3_arm_scx + (if cgb { 9int } else { 11 }) + (if wx > 7 {
        wx - 7
    } else {
        0
    }) + (if wx <= 7 && s.m3.m3_arm_scx % 8 == 5 { 1int } else { 0 })
}

/// Switching the window on before it is reached adds its six dots to a line
/// without objects; later, or where the window does not show, it adds none.
pub proof fn law_window_on_adds_six_dots(s: PpuView, value: u8, cgb: bool, ds: bool)
    requires
        switches_window(s, value),
        value & 0x20 != 0,
        s.line.sprites.len() == 0,
        s.m0.m0_time_master is Some,
        s.m0.m0_time_master->0 < 0x4000_0000_0000_0000,
    ensures
        ({
            let r = s.set_lcdc_visible(value, cgb, ds);
            let met = s.win.window_y_triggered || s.latch.wy2 == s.clk.internal_ly_val;
            let wx = s.m0.m3_scheduled_wx;
            let starts = met && wx <= (if cgb { 166int } else { 165 }) && s.ticks < last_chance(
                s,
                cgb,
            );
            &&& r.m0.m0_time_master is Some
            &&& r.m0.m0_time_master->0 == s.m0.m0_time_master->0 + in_cycles(
                if starts { 6 } else { 0 },
                ds,
            )
        }),
{
    reveal(PpuView::set_lcdc_visible);
    reveal(PpuView::m0_after_window_toggle);
}

/// Switching a started window off on CGB at single speed gives back those of its
/// six dots that have not passed yet; left of the screen's edge the fine scroll
/// comes first. On DMG nothing is given back.
pub proof fn law_window_off_gives_dots_back(s: PpuView, value: u8, cgb: bool)
    requires
        switches_window(s, value),
        value & 0x20 == 0,
        s.line.sprites.len() == 0,
        s.win.window_started_this_line,
        s.win.win_start_dot is Some,
        s.m0.m0_time_master is Some,
        s.m0.m0_time_master->0 >= 6,
    ensures
        ({
            let r = s.set_lcdc_visible(value, cgb, false);
            let edge = if s.m0.m3_scheduled_wx <= 7 { (s.m3.m3_arm_scx % 8) as int } else { 0 };
            let used = s.ticks - s.win.win_start_dot->0 - edge;
            let back = if !cgb || used >= 6 {
                0int
            } else if used <= 0 {
                6
            } else {
                6 - used
            };
            &&& r.m0.m0_time_master is Some
            &&& r.m0.m0_time_master->0 == s.m0.m0_time_master->0 - back
        }),
{
    reveal(PpuView::set_lcdc_visible);
    reveal(PpuView::m0_after_window_toggle);
}

/// Any other write leaves the line's length alone, and so does every write while
/// no pixels are put out.
pub proof fn law_other_bits_keep_the_length(s: PpuView, value: u8, cgb: bool, ds: bool)
    requires
        s.state != State::PixelTransfer || ((s.lcdc.reg & 0x20 != 0) == (value & 0x20 != 0) && (
        s.lcdc.reg & 0x02 != 0) == (value & 0x02 != 0) && (s.lcdc.reg & 0x04 != 0) == (value & 0x04
            != 0)),
    ensures
        s.set_lcdc_visible(value, cgb, ds).m0 == s.m0,
        s.set_lcdc_visible(value, cgb, ds).lcdc.reg == value,
{
    reveal(PpuView::set_lcdc_visible);
}

/// A window that CGB is drawing and that is switched off gives way to the
/// background; on DMG in the middle of the line its fetches go on for now.
pub proof fn law_window_off_ends_the_window(s: PpuView, value: u8, ds: bool)
    requires
        s.lcdc.reg & 0x80 != 0,
        s.lcdc.reg & 0x20 != 0,
        value & 0x20 == 0,
        s.fetcher.fetching_window,
        s.win.win_draw_started,
        !s.win.win_draw_start,
    ensures
        ({
            let c = s.set_lcdc_visible(value, true, ds);
            let d = s.set_lcdc_visible(value, false, ds);
            let more = c.fetcher.stop_window_after_tiles;
            &&& !c.win.window_started_this_line
            &&& !c.win.win_draw_started
            &&& c.fetcher.fetching_window == (more > 0)
            &&& s.state == State::PixelTransfer && s.x < 160 ==> d.fetcher.fetching_window
                && d.win.window_started_this_line == s.win.window_started_this_line
            &&& s.state != State::PixelTransfer || s.x >= 160 ==> !d.fetcher.fetching_window
                && !d.win.window_started_this_line
        }),
{
    reveal(PpuView::set_lcdc_visible);
    reveal(PpuView::after_window_switch);
}

/// A window that CGB drops keeps just the tiles that lie before the column which
/// the background's own grid had come to: no fewer, and one less if a tile is on
/// its way.
pub proof fn law_window_off_leaves_enough_tiles(s: PpuView)
    requires
        s.wg.bg_anchor_dot is Some,
        s.x < 160,
        s.fetcher.fifo.len() <= 16,
        s.ticks < 1000,
    ensures
        ({
            let reached = s.ticks - s.wg.bg_anchor_dot->0 - 7;
            let next = s.x + s.fetcher.fifo.len();
            let started = if s.fetcher.substep() != 0 { 1int } else { 0 };
            let tiles = s.cgb_weoff_extra_tiles();
            &&& next > reached ==> tiles == 0
            &&& next <= reached ==> next + 8 * (tiles + started) > reached && next + 8 * (tiles
                + started - 1) <= reached
        }),
{
    reveal(PpuView::cgb_weoff_extra_tiles);
}

/// On DMG without objects near, a background switch shows two columns further on;
/// on CGB hardware three; with a window on the line two more.
pub proof fn law_dmg_background_switch_is_noted(s: PpuView, value: u8, m: Mmio)
    requires
        s.lcdc.reg & 0x80 != 0,
        value & 0x80 != 0,
        s.state == State::PixelTransfer,
        !m.cgb_features,
        s.x < 150,
        s.objs.sprite_fetch_stall == 0,
        s.line.sprites.len() == 0,
        (s.lcdc.reg & 0x01 != 0) != (value & 0x01 != 0),
    ensures
        ({
            let r = s.lw_bgen(value, m);
            let window = s.win.window_started_this_line || s.win.win_draw_start || (s.lcdc.reg & 0x20
                != 0 && (s.win.window_y_triggered || s.latch.wy2 == m.ly));
            &&& r.hist.bgen.len() == s.hist.bgen.len() + 1
            &&& r.hist.bgen.last().0 == s.x + (if m.cgb_hardware { 3int } else { 2 }) + (
            if window { 2int } else { 0 })
            &&& r.hist.bgen.last().1 == (value & 0x01 != 0)
        }),
{
    reveal(PpuView::lw_bgen);
}

/// The fetcher sees a tile data select write from its own commit on; every other
/// bit is the visible one.
pub proof fn law_fetcher_sees_bit_4_on_its_clock(s: PpuView)
    ensures
        ({
            let l = s.fetcher_lcdc_state().lcdc;
            &&& l & 0xEF == s.lcdc.reg & 0xEF
            &&& s.lcdc.lcdc_b4_exact matches Some(c) ==> l & 0x10 == if s.clk.abs_cc < c.cc {
                c.old_val & 0x10
            } else {
                c.new_val & 0x10
            }
            &&& s.lcdc.lcdc_b4_exact is None ==> l == s.lcdc.reg
        }),
{
    let reg = s.lcdc.reg;
    if s.lcdc.lcdc_b4_exact is Some {
        let c = s.lcdc.lcdc_b4_exact->0;
        let v = if s.clk.abs_cc < c.cc { c.old_val } else { c.new_val };
        assert(((reg & !0x10u8) | (v & 0x10)) & 0x10 == v & 0x10 && ((reg & !0x10u8) | (v & 0x10))
            & 0xEF == reg & 0xEF) by (bit_vector);
    }
}

/// A write among the line's pixels, with the LCD staying on, is noted: objects
/// are on or off two dots later on DMG and three on CGB hardware, and have their
/// new height one dot later.
pub proof fn law_object_switches_are_noted(s: PpuView, value: u8, m: Mmio)
    requires
        !m.cgb_features,
        s.lcdc.reg & 0x80 != 0,
        value & 0x80 != 0,
        s.state == State::PixelTransfer,
        s.ticks < 0x1_0000,
    ensures
        ({
            let r = s.lw_objen(value, m);
            let t = s.lw_objsize(value, m);
            let wait = if m.cgb_hardware { 3int } else { 2 };
            &&& (s.lcdc.reg & 0x02 != 0) == (value & 0x02 != 0) ==> r == s
            &&& (s.lcdc.reg & 0x02 != 0) != (value & 0x02 != 0) ==> r.hist.objen.len()
                == s.hist.objen.len() + 1 && r.hist.objen.last().0 == s.ticks + wait
                && r.hist.objen.last().1 == (value & 0x02 != 0)
            &&& (s.lcdc.reg & 0x04 != 0) == (value & 0x04 != 0) ==> t == s
            &&& (s.lcdc.reg & 0x04 != 0) != (value & 0x04 != 0) ==> t.hist.objsize.len()
                == s.hist.objsize.len() + 1 && t.hist.objsize.last().0 == s.ticks + 1
                && t.hist.objsize.last().1 == (value & 0x04 != 0)
        }),
{
    reveal(PpuView::lw_objen);
    reveal(PpuView::lw_objsize);
}

/// The background is on or off two columns further on; with a window on the line
/// four.
pub proof fn law_background_switch_is_noted(s: PpuView, value: u8, m: Mmio)
    requires
        s.lcdc.reg & 0x80 != 0,
        value & 0x80 != 0,
        s.state == State::PixelTransfer,
        m.cgb_features,
        s.x < 150,
    ensures
        ({
            let r = s.lw_bgen(value, m);
            let window = s.win.window_started_this_line || s.win.win_draw_start || (s.lcdc.reg & 0x20
                != 0 && (s.win.window_y_triggered || s.latch.wy2 == m.ly));
            &&& (s.lcdc.reg & 0x01 != 0) == (value & 0x01 != 0) ==> r == s
            &&& (s.lcdc.reg & 0x01 != 0) != (value & 0x01 != 0) ==> r.hist.bgen.len()
                == s.hist.bgen.len() + 1 && r.hist.bgen.last().0 == s.x + (if window {
                4int
            } else {
                2
            }) && r.hist.bgen.last().1 == (value & 0x01 != 0)
        }),
{
    reveal(PpuView::lw_bgen);
}

/// Without CGB mode a map or tile data switch is on the video memory bus four
/// cycles after the write, with the old value beside the new.
pub proof fn law_select_switch_is_noted(s: PpuView, value: u8, m: Mmio)
    requires
        !m.cgb_features,
        s.lcdc.reg & 0x80 != 0,
        value & 0x80 != 0,
        s.state == State::PixelTransfer,
        s.clk.abs_cc < 0x4000_0000_0000_0000,
    ensures
        ({
            let r = s.lw_journal(value, m);
            let same = (s.lcdc.reg & 0x40 != 0) == (value & 0x40 != 0) && (s.lcdc.reg & 0x10 != 0)
                == (value & 0x10 != 0) && (s.lcdc.reg & 0x08 != 0) == (value & 0x08 != 0);
            &&& same ==> r == s
            &&& !same ==> r.journal.wg_hist.len() == s.journal.wg_hist.len() + 1
                && r.journal.wg_hist.last().0 == s.clk.abs_cc + 4 && r.journal.wg_hist.last().1
                == s.lcdc.reg && r.journal.wg_hist.last().2 == value
        }),
{
    reveal(PpuView::lw_journal);
}

/// During the scan of a CGB a change of the objects' height reaches it two cycles
/// after the write; making them small takes four at single speed.
pub proof fn law_height_switch_reaches_the_scan(s: PpuView, value: u8, m: Mmio, cc: u64)
    requires
        m.cgb_features,
        s.lcdc.reg & 0x80 != 0,
        value & 0x80 != 0,
        s.state == State::OAMSearch,
        (s.lcdc.reg & 0x04 != 0) != (value & 0x04 != 0),
        s.objs.objsize_apply_cc == 0xFFFF_FFFF_FFFF_FFFF,
        s.clk.abs_cc < 0x4000_0000_0000_0000,
        !m.double_speed,
    ensures
        s.lw_scan_size(value, m).objsize_large_at_cc(cc) == if cc >= s.clk.abs_cc + (if value & 0x04
            != 0 {
            2int
        } else {
            4
        }) {
            value & 0x04 != 0
        } else {
            s.objs.scan_obj_size_large
        },
{
    reveal(PpuView::lw_scan_size);
}

/// A window switch counts for the comparison of WY and LY three cycles after the
/// write, four at double speed; until then the old bit does.
pub proof fn law_window_switch_counts_for_wy(s: PpuView, value: u8, m: Mmio, cc: u64)
    requires
        (s.lcdc.reg & 0x20 != 0) != (value & 0x20 != 0),
        s.clk.abs_cc < 0x4000_0000_0000_0000,
        !m.double_speed,
    ensures
        ({
            let w = s.lw_we(value, m);
            let at = crate::write_laws::at_clock(w, cc);
            at.wy_compare_enabled() == if cc <= s.clk.abs_cc + 3 {
                s.lcdc.reg & 0x20 != 0
            } else {
                w.lcdc.reg & 0x20 != 0
            }
        }),
{
    reveal(PpuView::lw_we);
}

/// Switching objects off on DMG hardware breaks off the fetch in progress, unless
/// it ends on this dot or the next.
pub proof fn law_objects_off_breaks_off_a_fetch(s: PpuView, value: u8, m: Mmio)
    requires
        !m.cgb_features,
        !m.cgb_hardware,
        s.lcdc.reg & 0x80 != 0,
        value & 0x80 != 0,
        s.lcdc.reg & 0x02 != 0,
        value & 0x02 == 0,
        s.state == State::PixelTransfer,
        1 <= s.objs.next_sprite_fetch_index <= s.line.recs.len(),
        s.line.recs[s.objs.next_sprite_fetch_index - 1].phase == SpriteFetchPhase::Fetched,
    ensures
        ({
            let i = s.objs.next_sprite_fetch_index - 1;
            let rec = s.line.recs[i];
            let r = s.lw_objen(value, m);
            let ends = rec.arm_tick + rec.penalty;
            let broken = s.objs.sprite_fetch_stall > 0 && ends >= s.ticks + 2;
            &&& r.line.recs[i].phase == if broken {
                SpriteFetchPhase::Aborted
            } else {
                SpriteFetchPhase::Fetched
            }
            &&& r.objs.sprite_fetch_stall == if broken && s.objs.sprite_fetch_stall > 1 {
                1
            } else {
                s.objs.sprite_fetch_stall
            }
        }),
{
    reveal(PpuView::lw_objen);
}

/// On DMG hardware switching the window off while its tile is on its way
/// suppresses the stray pixel for the rest of the line; nothing else does.
pub proof fn law_window_off_suppresses_the_stray_pixel(s: PpuView, value: u8, m: Mmio)
    ensures
        s.lw_suppress(value, m).win.we_insert_suppressed == (s.win.we_insert_suppressed || (
        !m.cgb_hardware && s.lcdc.reg & 0x80 != 0 && value & 0x80 != 0 && s.lcdc.reg & 0x20 != 0
            && value & 0x20 == 0 && s.win.win_being_fetched)),
{
    reveal(PpuView::lw_suppress);
}

/// In CGB mode a switch of bit 4 among the pixels is kept with both values and
/// shows to the fetcher two cycles later. Falling at single speed it also marks
/// the tile data read that it hits: the one of the present step two cycles on,
/// or, where a push waits on an odd cycle, the high byte eight cycles on.
pub proof fn law_tile_data_switch_is_kept(s: PpuView, value: u8, m: Mmio)
    requires
        s.state == State::PixelTransfer,
        (s.lcdc.reg & 0x10 != 0) != (value & 0x10 != 0),
        s.clk.abs_cc < 0x4000_0000_0000_0000,
        !m.double_speed,
    ensures
        ({
            let r = s.lw_tds(value, m);
            let step = s.fetcher.substep();
            let falls = s.lcdc.reg & 0x10 != 0;
            let late = step == 3 && s.clk.abs_cc % 2 == 1;
            &&& r.lcdc.lcdc_b4_exact is Some
            &&& r.lcdc.lcdc_b4_exact->0.cc == s.clk.abs_cc + 2
            &&& r.lcdc.lcdc_b4_exact->0.old_val == s.lcdc.reg
            &&& r.lcdc.lcdc_b4_exact->0.new_val == value
            &&& falls && (step == 1 || step == 2) ==> r.journal.tidxtd.len()
                == s.journal.tidxtd.len() + 1 && r.journal.tidxtd.last().0 == s.clk.abs_cc + 2
                && r.journal.tidxtd.last().1 == step
            &&& falls && late ==> r.journal.tidxtd.len() == s.journal.tidxtd.len() + 1
                && r.journal.tidxtd.last().0 == s.clk.abs_cc + 8 && r.journal.tidxtd.last().1 == 2
            &&& !falls || (step != 1 && step != 2 && !late) ==> r.journal == s.journal
        }),
{
    reveal(PpuView::lw_tds);
}

} // verus!
