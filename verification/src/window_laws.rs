//! Where the window shows, and how long the lines are that it shows on.

use vstd::prelude::*;

use crate::fetcher::FetchState;
use crate::irq_laws::in_cycles;
use crate::line_objs::sprite_xs;
use crate::mmio::Mmio;
use crate::object_laws::{first_over_tile, law_one_more_object_costs};
use crate::objects::{ascending, walk_cost, SpriteFetchPhase};
use crate::read_laws::line_change;
use crate::state::{PpuView, State};

verus! {

/// The window is switched on and LY has met WY.
pub open spec fn window_met(s: PpuView, m: Mmio, win_en: bool) -> bool {
    win_en && (s.win.window_y_triggered || s.latch.wy2 == m.ly)
}

/// The line's fine scroll is not 0.
pub open spec fn has_fine_scroll(s: PpuView, m: Mmio) -> bool {
    if s.m3.m3_discard_target >= 0 { s.m3.m3_discard_target != 0 } else { m.scx % 8 != 0 }
}

/// On CGB the window starts seven columns left of WX, one that lies further left
/// in the first column with its first pixels cut off. It takes the next of its
/// own lines, and the pixels that were waiting are dropped.
pub proof fn law_window_starts_at_wx(s: PpuView, m: Mmio, win_en: bool)
    requires
        m.cgb_features,
        window_met(s, m, win_en),
        !s.fetcher.fetching_window,
    ensures
        ({
            let (r, started) = s.activate_window(m, win_en);
            let second = m.wx == 0 && has_fine_scroll(s, m);
            &&& started == (if m.wx < 7 { s.x == 0 } else { m.wx <= 166 && s.x == m.wx - 7 })
            &&& !started ==> r == s
            &&& started ==> r.win.win_y_pos == (s.win.win_y_pos + 1) % 256
                && r.win.window_started_this_line && r.fetcher.fetching_window
                && r.fetcher.fifo.len() == 0 && r.fetcher.state == FetchState::TileNumber
                && r.fetcher.window_x_start == s.x && r.fetcher.tile_index == (if second {
                1
            } else {
                0int
            })
            &&& started && 0 < m.wx < 7 ==> r.win.win_first_tile_chop == 7 - m.wx
            &&& started && m.wx == 0 ==> r.win.win_first_tile_chop == if second { 0int } else { 7 }
        }),
{
    reveal(PpuView::activate_window);
    reveal(PpuView::begin_window_draw);
}

/// On DMG the window is noted in the column seven left of WX and starts on the
/// next dot if WX has not changed meanwhile.
pub proof fn law_dmg_window_starts_a_dot_later(s: PpuView, m: Mmio, win_en: bool)
    requires
        !m.cgb_features,
        window_met(s, m, win_en),
        !s.fetcher.fetching_window,
        7 <= m.wx <= 165,
        s.x + 7 == m.wx,
    ensures
        ({
            let (r, started) = s.activate_window(m, win_en);
            &&& started
            &&& r.win.dmg_wx_trigger_pending matches Some(t) && t.dot == s.ticks && t.wx == m.wx
            &&& r.fetcher == s.fetcher
            &&& r.win.win_y_pos == s.win.win_y_pos
        }),
{
    reveal(PpuView::activate_window);
}

/// The start that was noted a dot ago.
pub proof fn law_dmg_window_start_is_confirmed(s: PpuView, m: Mmio)
    requires
        !m.cgb_features,
        s.win.dmg_wx_trigger_pending matches Some(t) ==> t.dot < 456,
    ensures
        ({
            let (r, started) = s.deferred_window(m);
            &&& r.win.dmg_wx_trigger_pending is None
            &&& started == (s.win.dmg_wx_trigger_pending matches Some(t) && s.ticks == t.dot + 1 && m.wx == t.wx && s.x + 7 == t.wx
                && !s.fetcher.fetching_window)
            &&& started ==> r.win.win_y_pos == (s.win.win_y_pos + 1) % 256
                && r.win.window_started_this_line
            &&& !started ==> r.fetcher == s.fetcher && r.win.win_y_pos == s.win.win_y_pos
        }),
{
    reveal(PpuView::deferred_window);
    reveal(PpuView::begin_window_draw);
    reveal(PpuView::window_fetch);
}

/// A DMG window with WX 0 waits a dot where there is a fine scroll, and then
/// starts with its second tile; without one it starts at once.
pub proof fn law_dmg_window_at_0(s: PpuView, m: Mmio, win_en: bool)
    requires
        !m.cgb_features,
        window_met(s, m, win_en),
        !s.fetcher.fetching_window,
        m.wx == 0,
        s.x == 0,
    ensures
        ({
            let (r, started) = s.activate_window(m, win_en);
            let waits = has_fine_scroll(s, m) && !s.win.win_wx0_delayed;
            &&& started
            &&& waits ==> r.win.win_wx0_delayed && r.fetcher == s.fetcher && r.win.win_y_pos
                == s.win.win_y_pos
            &&& !waits ==> r.win.win_y_pos == (s.win.win_y_pos + 1) % 256
                && r.win.window_started_this_line
        }),
{
    reveal(PpuView::activate_window);
    reveal(PpuView::begin_window_draw);
    reveal(PpuView::window_fetch);
}

/// A DMG window left of the screen's edge starts before the first pixel, six dots
/// less WX before the line's grid dot, and has its first pixels cut off.
pub proof fn law_dmg_window_left_of_the_screen(s: PpuView, m: Mmio)
    requires
        !m.cgb_features,
        s.x == 0,
        !s.fetcher.fetching_window,
        !s.clk.first_line_after_enable,
        s.m3.m3_discard_target >= 0,
        s.win.we_dot_hist.d1,
        s.win.we_dot_hist.d2,
        s.win.window_y_triggered || s.latch.wy2 == m.ly,
        s.m3.m3_arm_dot % 2 == 0,
    ensures
        ({
            let (r, started) = s.early_window(m);
            let dot = s.m3.m3_arm_dot + 6 + m.wx + s.m3.m3_discard_target;
            let left = (1 <= m.wx < 7) || (m.wx == 0 && s.m3.m3_discard_target == 0);
            &&& started == (left && s.ticks == dot)
            &&& !started ==> r == s
            &&& started ==> r.win.win_first_tile_chop == 7 - m.wx && r.win.win_y_pos == (
            s.win.win_y_pos + 1) % 256 && r.win.window_started_this_line
                && r.m3.m3_pixels_discarded == s.m3.m3_discard_target
        }),
{
    reveal(PpuView::early_window);
    reveal(PpuView::begin_window_draw);
    reveal(PpuView::window_fetch);
}

/// None starts there with the window switched off, nor on a line that LY has not
/// met.
pub proof fn law_no_dmg_window_left_of_the_screen(s: PpuView, m: Mmio)
    requires
        m.cgb_features || s.x != 0 || !s.win.we_dot_hist.d1 || !s.win.we_dot_hist.d2 || (
        !s.win.window_y_triggered && s.latch.wy2 != m.ly) || m.wx >= 7,
    ensures
        s.early_window(m) == (s, false),
{
    reveal(PpuView::early_window);
}

/// The window bit that lets a window start: the present one on CGB; on DMG the
/// bit must have been set one and two dots ago, and less long while pixels are
/// still to be dropped.
pub proof fn law_window_bit_that_counts(s: PpuView, m: Mmio)
    ensures
        ({
            let drop = if s.x == 0 && s.m3.m3_discard_target > s.m3.m3_pixels_discarded {
                s.m3.m3_discard_target - s.m3.m3_pixels_discarded
            } else {
                0
            };
            let h = s.win.we_dot_hist;
            s.trigger_we(m) == if m.cgb_features {
                s.lcdc.reg & 0x20 != 0
            } else if drop == 0 {
                h.d1 && h.d2
            } else if drop == 1 {
                h.d0 && h.d1
            } else {
                h.d0
            }
        }),
{
}

/// The window bit's history moves on by a dot.
pub proof fn law_window_bit_moves_back(s: PpuView)
    ensures
        ({
            let a = s.win.we_dot_hist;
            let b = s.shift_we_hist().win.we_dot_hist;
            b.d0 == (s.lcdc.reg & 0x20 != 0) && b.d1 == a.d0 && b.d2 == a.d1 && b.d3 == a.d2 && b.d4
                == a.d3
        }),
{
    reveal(PpuView::shift_we_hist);
}

/// A line that was scheduled without a window, at single speed and without
/// objects, gets six dots more when a WX write brings the window onto it in
/// time, and none when it comes too late.
pub proof fn law_wx_write_brings_the_window(s: PpuView, m: Mmio)
    requires
        m.cgb_features,
        m.cgb_hardware,
        !m.double_speed,
        s.line.sprites.len() == 0,
        s.m0.scheduled_mode0_dot is Some,
        s.m0.m0_time_master is Some,
        s.m0.m0_time_master->0 < 0x4000_0000_0000_0000,
        !s.win.window_started_this_line,
        !s.win.win_wx_enable_resolved,
        !s.m0.m3_scheduled_win,
        s.m0.m3_scheduled_wx > 166,
        7 < m.wx <= 166,
        window_met(s, m, s.lcdc.reg & 0x20 != 0),
    ensures
        ({
            let r = s.rekey_wx_change(m, false);
            let last = s.m3.m3_arm_dot + s.m3.m3_arm_scx + m.wx + 6;
            &&& r.m0.m0_time_master is Some
            &&& r.m0.m0_time_master->0 == s.m0.m0_time_master->0 + if s.ticks < last {
                6int
            } else {
                0
            }
            &&& r.win.win_wx_enable_resolved
        }),
{
    reveal(PpuView::rekey_wx_change);
}

/// WX leaving the screen after the window has started gives dots back: on DMG all
/// six within the fine scroll and two dots of the start and none later, on CGB at
/// single speed those that have not passed.
pub proof fn law_wx_write_takes_the_window_away(s: PpuView, m: Mmio)
    requires
        !m.double_speed,
        s.line.sprites.len() == 0,
        s.m0.m0_time_master is Some,
        s.m0.m0_time_master->0 >= 6,
        s.win.window_started_this_line,
        s.win.win_start_dot is Some,
        !s.win.win_wx_penalty_resolved,
        7 <= s.m0.m3_scheduled_wx <= 166,
        m.wx > 166,
        s.m3.m3_arm_scx < 4,
        s.ticks >= s.win.win_start_dot->0,
    ensures
        ({
            let r = s.resolve_wx_penalty(m, false);
            let since = s.ticks - s.win.win_start_dot->0;
            let drawn = since + if s.m3.m3_arm_scx > 0 { 1int } else { 0 };
            let back = if !m.cgb_features {
                if since < s.m3.m3_arm_scx + 2 { 6int } else { 0 }
            } else if drawn < 6 {
                6 - drawn
            } else {
                0
            };
            &&& r.m0.m0_time_master is Some
            &&& r.m0.m0_time_master->0 == s.m0.m0_time_master->0 - back
            &&& r.win.win_wx_penalty_resolved
        }),
{
    reveal(PpuView::resolve_wx_penalty);
}

/// No window on a line that LY has not met, nor while it is switched off, nor
/// with WX beyond 166; on DMG nor with WX at 166.
pub proof fn law_no_window_beyond_its_place(s: PpuView, m: Mmio, win_en: bool)
    requires
        !win_en || (!s.win.window_y_triggered && s.latch.wy2 != m.ly) || m.wx > 166 || (m.wx == 166
            && !m.cgb_features),
    ensures
        s.activate_window(m, win_en) == (s, false),
{
    reveal(PpuView::activate_window);
}

/// WY is compared with LY on dot 450 of a line, with the next line's number on
/// dot 454, and with 0 in the first dots of line 0. Nothing else sets the latch.
pub proof fn law_wy_is_compared_near_the_line_end(s: PpuView, m: Mmio)
    requires
        s.lcdc.we_win_bit_exact is None,
        !s.clk.first_line_after_enable,
        s.state != State::OAMSearch,
    ensures
        s.update_window_y_latch(m).win.window_y_triggered == (s.win.window_y_triggered || (
        !s.disabled && s.lcdc.reg & 0x20 != 0 && (s.ticks == 450 && s.latch.wy1 == m.ly || s.ticks
            == 454 && s.latch.wy1 == m.ly + 1))),
{
    reveal(PpuView::update_window_y_latch);
}

/// The comparison at the start of line 0.
pub proof fn law_wy_is_compared_at_the_frame_start(s: PpuView, m: Mmio)
    requires
        s.lcdc.we_win_bit_exact is None,
        s.state == State::OAMSearch,
        m.ly == 0,
        s.ticks < 450,
    ensures
        s.update_window_y_latch(m).win.window_y_triggered == (s.win.window_y_triggered || (
        !s.disabled && s.lcdc.reg & 0x20 != 0 && s.latch.wy1 == 0 && s.ticks == (if m.cgb_features {
            2
        } else {
            1int
        }))),
{
    reveal(PpuView::update_window_y_latch);
}

/// A frame's end takes the window back to its first line and forgets the latch.
pub proof fn law_frame_end_rewinds_the_window(s: PpuView, m: Mmio)
    ensures
        ({
            let r = s.end_frame(m).0;
            (r.win.win_y_pos + 1) % 256 == 0 && !r.win.window_y_triggered
        }),
{
    reveal(PpuView::enter_scheduled_mode2);
}

/// The window does not show on this line.
pub open spec fn windowless(s: PpuView, m: Mmio) -> bool {
    s.lcdc.reg & 0x20 == 0 || (!s.win.window_y_triggered && s.latch.wy2 != m.ly) || m.wx > 166 || (
    m.wx == 166 && !m.cgb_hardware)
}

/// Without a window and objects mode 3 puts out 167 pixels and those that the
/// fine scroll drops; on DMG it takes a dot more.
pub proof fn law_plain_line_length(s: PpuView, m: Mmio, is_cgb: bool)
    requires
        windowless(s, m),
        s.line.sprites.len() == 0,
        s.m3.first_line_scx_override is None,
    ensures
        s.m3_length(m, is_cgb) == 167 + m.scx % 8 + (if is_cgb { 0int } else { 1 }),
        s.m3_length_win(m, is_cgb).1 == false,
{
    lemma_no_objects(s, m, (m.scx % 8) as int, 0xFF, 167);
}

proof fn lemma_no_objects(s: PpuView, m: Mmio, scx: int, nwx: int, target: int)
    requires
        s.line.sprites.len() == 0,
    ensures
        s.line_walk_cost(m, scx, nwx, target) == 0,
{
    let base = sprite_xs(s.line.sprites);
    base.lemma_sort_by_ensures(|a: i32, b: i32| a <= b);
    vstd::seq_lib::to_multiset_len(base);
    vstd::seq_lib::to_multiset_len(ascending(base));
}

/// On such a line the last pixel takes one dot.
pub proof fn law_plain_targets(s: PpuView, m: Mmio, is_cgb: bool)
    requires
        !s.window_will_start(m),
        s.line.sprites.len() == 0,
    ensures
        s.m3_length_to_target(m, is_cgb, 167) == s.m3_length_to_target(m, is_cgb, 166) + 1,
        s.m3_length_to_target(m, is_cgb, 166) == 166 + m.scx % 8 + (if is_cgb { 0int } else { 1 }),
{
    lemma_no_objects(s, m, (m.scx % 8) as int, 0xFF, 167);
    lemma_no_objects(s, m, (m.scx % 8) as int, 0xFF, 166);
}

/// A window adds six dots; with WX 0 and a fine scroll one more, and on CGB at
/// single speed with fine scroll 5 one less.
pub proof fn law_window_line_length(s: PpuView, m: Mmio, is_cgb: bool)
    requires
        window_met(s, m, s.lcdc.reg & 0x20 != 0),
        m.wx <= 165,
        s.line.sprites.len() == 0,
        s.m3.first_line_scx_override is None,
    ensures
        ({
            let fine = m.scx % 8;
            let plain = 167 + fine + (if is_cgb { 0int } else { 1 });
            let extra = s.m3_length(m, is_cgb) - plain;
            &&& s.m3_length_win(m, is_cgb).1
            &&& m.wx == 0 ==> extra == if fine == 0 { 6int } else { 7 }
            &&& m.wx > 0 ==> extra == if fine == 5 && is_cgb && !m.double_speed { 5int } else { 6 }
        }),
{
    lemma_no_objects(s, m, (m.scx % 8) as int, m.wx as int, 167);
}

/// One object on a line without a window adds eleven dots less up to five; none
/// if it lies beyond the screen, nor on DMG while objects are switched off.
pub proof fn law_one_object_line_length(s: PpuView, m: Mmio, is_cgb: bool)
    requires
        windowless(s, m),
        s.line.sprites.len() == 1,
        s.m3.first_line_scx_override is None,
    ensures
        ({
            let fine = (m.scx % 8) as int;
            let x = s.line.sprites[0].x;
            let shown = x <= 167 && (s.lcdc.reg & 0x02 != 0 || m.cgb_hardware);
            s.m3_length(m, is_cgb) == 167 + fine + (if is_cgb { 0int } else { 1 }) + if shown {
                first_over_tile(x as int, fine)
            } else {
                0
            }
        }),
{
    let base = sprite_xs(s.line.sprites);
    let leq = |a: i32, b: i32| a <= b;
    base.lemma_sort_by_ensures(leq);
    vstd::seq_lib::to_multiset_len(base);
    vstd::seq_lib::to_multiset_len(ascending(base));
    let xs = ascending(base);
    let x = s.line.sprites[0].x as i32;
    assert(xs.len() == 1);
    assert(base.contains(xs[0])) by {
        assert(xs.contains(xs[0]));
    }
    assert(xs[0] == x);
    let none = Seq::<i32>::empty();
    assert(none.push(x) =~= xs);
    let fine = (m.scx % 8) as int;
    if x <= 167 {
        law_one_more_object_costs(none, x, fine, 0xFF, 167);
        assert(walk_cost(none, fine, 0xFF, 167, true) == 0);
    }
}

/// When the current line started, as reads find it.
pub open spec fn line_began(s: PpuView, ds: bool) -> int {
    line_change(s, ds) - in_cycles(456, ds) + if s.speed.lytime_no_plus1 { 0int } else { 1 }
}

/// Mode 3 of `len` dots ends `len` dots and 84 into the line on CGB, 83 on DMG;
/// two later on the line after switching on.
pub proof fn law_mode_3_ends(s: PpuView, m: Mmio, len: int, is_cgb: bool, first: bool)
    requires
        line_began(s, m.double_speed) >= 0,
        0 <= len,
    ensures
        s.m0_time_exact(m, len, is_cgb, first) == line_began(s, m.double_speed) + in_cycles(
            len + (if is_cgb { 84int } else { 83 }) + (if first { 2int } else { 0 }),
            m.double_speed,
        ),
{
}

/// A line without a window and objects: its mode 3 ends 251 dots and the fine
/// scroll into the line.
pub proof fn law_plain_line_is_scheduled(s: PpuView, m: Mmio)
    requires
        windowless(s, m),
        s.line.sprites.len() == 0,
        s.m3.first_line_scx_override is None,
        0 <= line_began(s, m.double_speed) < 0x4000_0000_0000_0000,
    ensures
        ({
            let (r, n) = s.arm_schedule(m, false);
            let end = line_began(s, m.double_speed) + in_cycles(251 + m.scx % 8, m.double_speed);
            &&& r.m0.m0_time_master is Some
            &&& r.m0.m0_time_master->0 == end
            &&& r.m0.cgbp_block_start_cc is Some
            &&& r.m0.cgbp_block_start_cc->0 == line_began(s, m.double_speed)
                + if m.double_speed { 158int } else { 80 }
            &&& !r.m0.m3_scheduled_win
            &&& r.m0.m3_scheduled_wx == m.wx
        }),
{
    reveal(PpuView::arm_schedule_line);
    law_plain_line_length(s, m, m.cgb_features);
    law_mode_3_ends(s, m, s.m3_length(m, m.cgb_features), m.cgb_features, false);
}

/// Drawing starts on dot 80 of a line, 82 on CGB; on the line after switching on
/// on dots 85 and 84. STAT shows mode 3 from there on and the first column is
/// drawn first.
pub proof fn law_drawing_starts_on_its_dot(s: PpuView, m: Mmio)
    requires
        s.state == State::OAMSearch,
        s.ticks != 0,
    ensures
        ({
            let (r, n) = s.step_mode2(m);
            let dot = if s.clk.first_line_after_enable {
                if m.cgb_features { 84int } else { 85 }
            } else {
                if m.cgb_features { 82int } else { 80 }
            };
            &&& s.ticks == dot ==> r.state == State::PixelTransfer && r.x == 0
                && r.fetcher.fifo.len() == 0 && r.objs.next_sprite_fetch_index == 0
                && !r.clk.first_line_after_enable && r.m3.m3_arm_scx == m.scx % 8
                && r.m3.m3_arm_dot == dot && r.m3.m3_pixels_discarded == 0
            &&& s.ticks != dot ==> r.state == State::OAMSearch
            &&& n.ly == m.ly
        }),
{
    reveal(PpuView::mode2_line_start);
    reveal(PpuView::mode2_first_line);
    reveal(PpuView::mode2_scan_slot);
    reveal(PpuView::arm_reset);
    reveal(PpuView::arm_window);
    reveal(PpuView::arm_records);
    reveal(PpuView::arm_scroll);
    reveal(PpuView::arm_schedule_line);
}

/// The dots until pixel `target` is out count the window only if it starts before
/// that pixel.
pub proof fn law_window_counts_before_its_pixel(s: PpuView, m: Mmio, is_cgb: bool, target: int)
    requires
        window_met(s, m, s.lcdc.reg & 0x20 != 0),
        m.wx <= 165 || (m.wx == 166 && m.cgb_hardware),
        s.line.sprites.len() == 0,
        0 <= target,
    ensures
        ({
            let fine = m.scx % 8;
            let plain = target + fine + (if is_cgb { 0int } else { 1 });
            s.m3_length_to_target(m, is_cgb, target) == plain + if m.wx >= target {
                0int
            } else if fine == 5 && is_cgb && !m.double_speed {
                5
            } else {
                6
            }
        }),
{
    lemma_no_objects(s, m, (m.scx % 8) as int, 0xFF, target);
    lemma_no_objects(s, m, (m.scx % 8) as int, m.wx as int, target);
}

/// The grid of a window at the left edge starts on the present dot, less the dots
/// given; an object that hangs over the edge moves it by its own dots, and holds
/// it up by thirteen less its X rounded up to even, seven at least.
pub proof fn law_window_grid_starts(s: PpuView, chop: int)
    requires
        s.x == 0,
        s.line.sprites.len() <= 1,
        s.line.recs.len() == s.line.sprites.len(),
        0 <= chop <= 10,
        300 <= s.clk.abs_cc,
        s.line.sprites.len() == 1 ==> s.line.sprites[0].x <= 7,
    ensures
        ({
            let g = s.wg_set_anchor(chop);
            let fetched = s.line.sprites.len() == 1 && s.line.recs[0].phase
                == SpriteFetchPhase::Fetched;
            &&& g.wg_anchor_cc is Some
            &&& !fetched ==> g.wg_anchor_cc->0 == s.clk.abs_cc - chop && g.wg_dpre == 0
            &&& fetched ==> ({
                let x = s.line.sprites[0].x;
                let rounded = if x % 2 == 0 { x as int } else { x + 1 };
                g.wg_anchor_cc->0 == s.clk.abs_cc - chop - s.line.recs[0].penalty && g.wg_dpre == (
                if rounded <= 6 { 13 - rounded } else { 7 })
            })
        }),
{
    reveal(PpuView::wg_set_anchor);
    reveal_with_fuel(crate::glitch::fetched_count, 3);
    reveal_with_fuel(crate::glitch::last_fetched, 3);
}

/// Away from the left edge the window's grid is not known.
pub proof fn law_window_grid_is_known_at_the_edge(s: PpuView, chop: int)
    requires
        s.x != 0,
    ensures
        s.wg_set_anchor(chop).wg_anchor_cc is None,
{
    reveal(PpuView::wg_set_anchor);
}

/// A DMG window whose column was passed by one while it was off starts a column
/// late.
pub proof fn law_dmg_window_starts_a_column_late(s: PpuView, m: Mmio, win_en: bool)
    requires
        !m.cgb_features,
        window_met(s, m, win_en),
        !s.fetcher.fetching_window,
        7 <= m.wx <= 165,
    ensures
        ({
            let (r, started) = s.activate_window(m, win_en);
            &&& started == (s.x + 7 == m.wx || (s.x >= 1 && s.x + 6 == m.wx))
            &&& s.x >= 1 && s.x + 6 == m.wx ==> r.win.win_y_pos == (s.win.win_y_pos + 1) % 256
                && r.win.window_started_this_line
        }),
{
    reveal(PpuView::activate_window);
    reveal(PpuView::begin_window_draw);
    reveal(PpuView::window_fetch);
}

/// On DMG the window is expected eleven dots, the fine scroll and its columns
/// after drawing starts; on CGB nothing is expected.
pub proof fn law_window_is_expected(s: PpuView, m: Mmio)
    requires
        s.m3.m3_arm_dot < 0x1_0000,
    ensures
        ({
            let met = window_met(s, m, s.lcdc.reg & 0x20 != 0) && m.wx <= 165;
            let columns = if m.wx > 7 { m.wx - 7 } else { 0 };
            &&& !m.cgb_features && met ==> s.predicted_window_dot(m) is Some
                && s.predicted_window_dot(m)->0 == s.m3.m3_arm_dot + 11 + s.m3.m3_arm_scx + columns
            &&& m.cgb_features || windowless(s, m) ==> s.predicted_window_dot(m) is None
        }),
{
}

} // verus!
