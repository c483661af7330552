//! How a line's pixels come out of the queue.

use vstd::prelude::*;

use crate::fifo::BgPixel;
use crate::irq_laws::{in_cycles, law_stat_fields};
use crate::mmio::Mmio;
use crate::object_laws::law_object_fetch_starts_in_its_column;
use crate::state::{Objs, PpuView, State};

verus! {

/// SCX as the fine scroll sees it: a write that has come due, or the value
/// before.
pub open spec fn scx_in_force(s: PpuView) -> u8 {
    if s.latch.scx_f1_apply_cc != 0xFFFF_FFFF_FFFF_FFFF && s.clk.abs_cc >= s.latch.scx_f1_apply_cc {
        s.latch.scx_f1_new
    } else {
        s.latch.scx_prev_f1
    }
}

/// Before the first column as many pixels are dropped as the fine scroll says:
/// the front of the queue, one a dot.
pub proof fn law_fine_scroll_drops_pixels(s: PpuView, m: Mmio)
    requires
        s.x == 0,
        s.m3.m3_discard_target > s.m3.m3_pixels_discarded,
        s.fetcher.fifo.len() > 0,
        !s.win.we_glitch_discard_insert,
        !s.fetcher.fetching_window || m.wx != 7,
    ensures
        ({
            let (r, took) = s.discard_scroll(m);
            &&& took
            &&& r.fetcher.fifo == s.fetcher.fifo.skip(1)
            &&& r.m3.m3_pixels_discarded == s.m3.m3_pixels_discarded + 1
            &&& r.m3.m3_discard_target == s.m3.m3_discard_target
            &&& r.x == 0
            &&& r.frames == s.frames
        }),
{
    reveal(PpuView::discard_scroll);
}

/// No more are dropped than that, and none behind the first column. Until the
/// fine scroll is known nothing is drawn.
pub proof fn law_fine_scroll_drops_no_more(s: PpuView, m: Mmio)
    requires
        s.x > 0 || s.m3.m3_discard_target <= s.m3.m3_pixels_discarded,
    ensures
        s.discard_scroll(m) == (s, s.x == 0 && s.m3.m3_discard_target < 0),
{
    reveal(PpuView::discard_scroll);
}

/// The number of pixels to drop is the fine scroll, the low three bits of SCX:
/// it is taken over on the first dot whose number, counted from the start of
/// drawing, has these three bits.
pub proof fn law_fine_scroll_is_scx_modulo_8(s: PpuView, m: Mmio)
    requires
        s.x == 0,
        s.m3.m3_discard_target < 0,
        s.m3.m3_arm_dot < s.ticks < s.m3.m3_arm_dot + 81,
    ensures
        ({
            let (r, took) = s.latch_scroll(m);
            let dot = s.ticks - s.m3.m3_arm_dot - 1;
            let found = dot % 8 == scx_in_force(s) % 8;
            &&& found ==> r.m3.m3_discard_target >= 0 && r.m3.m3_discard_target % 8 == scx_in_force(
                s,
            ) % 8
            &&& !found ==> r == s && !took
            &&& !m.cgb_features ==> !took
        }),
{
    reveal(PpuView::latch_scroll);
}

/// The line's end moves with the scroll that was found: by the dots it differs
/// from the one that the line was scheduled with.
pub proof fn law_line_end_moves_with_the_scroll(s: PpuView, m: Mmio)
    requires
        s.x == 0,
        s.m3.m3_discard_target < 0,
        s.m3.m3_arm_dot < s.ticks < s.m3.m3_arm_dot + 81,
        (s.ticks - s.m3.m3_arm_dot - 1) % 8 == scx_in_force(s) % 8,
        s.m0.scheduled_mode0_dot is Some,
        s.m0.m0_time_master is Some,
        1000 <= s.m0.m0_time_master->0 < 0x4000_0000_0000_0000,
    ensures
        ({
            let r = s.latch_scroll(m).0;
            let later = s.ticks - s.m3.m3_arm_dot - 1 - s.m3.m3_arm_scx;
            &&& r.m0.m0_time_master is Some
            &&& r.m0.m0_time_master->0 == s.m0.m0_time_master->0 + in_cycles(
                later,
                m.double_speed,
            )
        }),
{
    reveal(PpuView::latch_scroll);
}

/// On CGB the first tile is read again where SCX has come to another map column
/// since, and only there.
pub proof fn law_first_tile_is_read_again(s: PpuView, m: Mmio, i: int)
    requires
        m.cgb_features,
        s.x == 0,
        s.m3.m3_discard_target < 0,
        s.m3.m3_arm_dot < s.ticks < s.m3.m3_arm_dot + 81,
        (s.ticks - s.m3.m3_arm_dot - 1) % 8 == scx_in_force(s) % 8,
        s.m3.m3_arm_scx_full >= 0,
        s.latch.scx_f1_apply_cc == 0xFFFF_FFFF_FFFF_FFFF,
        8 <= s.fetcher.fifo.len(),
        0 <= i < s.fetcher.fifo.len(),
    ensures
        ({
            let (r, took) = s.latch_scroll(m);
            let column = s.latch.scx_prev_f1 as int / 8;
            let moved = column != (s.m3.m3_arm_scx_full as int / 8) % 32;
            &&& took == moved
            &&& r.fetcher.fifo[i] == if moved && i < 8 {
                s.bg_pixels_at_col(m, column, (s.latch.scy_delayed + m.ly) % 256)[i]
            } else {
                s.fetcher.fifo[i]
            }
        }),
{
    reveal(PpuView::latch_scroll);
    reveal(PpuView::bg_pixels_at_col);
}

/// On DMG hardware a window that is switched off leaves a blank pixel in the
/// column where it would have started, if a tile starts there; one that draws its
/// own start column again puts one first.
pub proof fn law_stray_pixels(s: PpuView, m: Mmio)
    ensures
        ({
            let r = s.find_strays(m);
            let here = m.wx == s.x + 7;
            let tile_starts = s.win.we_glitch_tile_start_a == Some(s.x)
                || s.win.we_glitch_tile_start_b == Some(s.x);
            let off = !m.cgb_hardware && s.win.window_y_triggered && !s.fetcher.fetching_window
                && !s.win.we_dot_hist.d2 && !s.win.we_insert_suppressed && tile_starts && here;
            let again = !m.cgb_features && s.win.window_started_this_line
                && s.fetcher.fetching_window && !s.win.win_being_fetched && s.fetcher.fifo.len()
                == 8 && here;
            &&& r.win.insert_bg_pixel == (s.win.insert_bg_pixel || off || again)
            &&& r.x == s.x
            &&& r.fetcher == s.fetcher
            &&& r.win.we_glitch_tile_start_a matches Some(a) ==> a > s.x
            &&& r.win.we_glitch_tile_start_b matches Some(b) ==> b > s.x
        }),
{
    reveal(PpuView::find_strays);
}

/// The pixels of a window that lie left of the screen are dropped, one a dot.
pub proof fn law_window_left_of_the_screen_is_cut(s: PpuView)
    requires
        s.fetcher.fifo.len() > 0,
    ensures
        ({
            let (r, took) = s.chop_window();
            &&& took == (s.x == 0 && s.win.win_first_tile_chop > 0)
            &&& took ==> r.fetcher.fifo == s.fetcher.fifo.skip(1) && r.win.win_first_tile_chop
                == s.win.win_first_tile_chop - 1 && r.x == 0 && r.frames == s.frames
            &&& !took ==> r == s
        }),
{
    reveal(PpuView::chop_window);
}

/// Drawing takes the front of the queue, and a stray pixel before it.
pub proof fn law_front_of_the_queue_is_drawn(s: PpuView, m: Mmio)
    requires
        s.x < 160,
        s.fetcher.fifo.len() > 0,
    ensures
        ({
            let (r, drawn) = s.draw_fifo_pixel(m);
            &&& drawn
            &&& r.x == s.x + 1
            &&& r.fetcher.fifo == if s.win.insert_bg_pixel {
                s.fetcher.fifo
            } else {
                s.fetcher.fifo.skip(1)
            }
            &&& s.take_pixel().1 is Some
            &&& s.take_pixel().1->0.color == if s.win.insert_bg_pixel {
                0
            } else {
                s.fetcher.fifo[0].color
            }
            &&& !r.win.insert_bg_pixel
        }),
{
    lemma_draw(s, m);
}

proof fn lemma_plot(s: PpuView, m: Mmio, p: BgPixel)
    ensures
        s.plot_pixel(m, p).x == s.x,
        s.plot_pixel(m, p).win == s.win,
        s.plot_pixel(m, p).fetcher == s.fetcher,
{
    reveal(PpuView::plot_color);
    reveal(PpuView::plot_compat);
    reveal(PpuView::plot_mono);
}

proof fn lemma_draw(s: PpuView, m: Mmio)
    requires
        s.x < 160,
    ensures
        ({
            let (r, drawn) = s.draw_fifo_pixel(m);
            let (t, p) = s.take_pixel();
            &&& drawn == (s.win.insert_bg_pixel || s.fetcher.fifo.len() > 0)
            &&& drawn == (p is Some)
            &&& drawn ==> r.x == s.x + 1 && r.win == t.win && r.fetcher == t.fetcher
            &&& !drawn ==> r == s
        }),
{
    reveal(PpuView::draw_fifo_pixel);
    let (t, p) = s.take_pixel();
    if p is Some {
        lemma_plot(t, m, p->0);
    }
}

/// While an object is being fetched drawing waits: each dot takes one off.
pub proof fn law_drawing_waits_for_objects(s: PpuView, m: Mmio)
    requires
        s.wf(),
    ensures
        ({
            let (r, took) = s.stall_for_sprites(m);
            let ready = s.fetcher.fifo.len() > 0 && s.objs.pixel_transfer_warmup == 0;
            &&& r.x == s.x
            &&& r.fetcher == s.fetcher
            &&& r.frames == s.frames
            &&& s.objs.sprite_fetch_stall > 0 ==> took && r.objs.sprite_fetch_stall
                == s.objs.sprite_fetch_stall - 1
            &&& s.objs.sprite_fetch_stall == 0 && ready ==> match s.sprite_fetch_step(m).1 {
                Some(cost) => took && r.objs.sprite_fetch_stall == cost - 1,
                None => !took && r.objs.sprite_fetch_stall == 0,
            }
            &&& s.objs.sprite_fetch_stall == 0 && !ready ==> r == s && !took
        }),
{
    reveal(PpuView::stall_for_sprites);
    law_object_fetch_starts_in_its_column(s, m);
}

/// Nothing is drawn before the first tile is queued, nor for the dots of warming
/// up after that.
pub proof fn law_nothing_is_drawn_before_the_first_tile(s: PpuView, m: Mmio)
    requires
        s.fetcher.fifo.len() == 0 || s.objs.pixel_transfer_warmup > 0,
    ensures
        ({
            let (r, n) = s.dot_after_fetch(m);
            &&& n == m
            &&& r.x == s.x
            &&& r.frames == s.frames
            &&& r.fetcher == s.fetcher
            &&& s.fetcher.fifo.len() > 0 ==> r.objs.pixel_transfer_warmup
                == s.objs.pixel_transfer_warmup - 1
        }),
{
    reveal(PpuView::dot_start_window);
}

proof fn lemma_flush(s: PpuView, m: Mmio)
    requires
        s.x <= 160,
    ensures
        ({
            let r = s.flush_pixels(m);
            &&& r.x >= 160 || (r.fetcher.fifo.len() == 0 && !r.win.insert_bg_pixel)
            &&& r.x <= 160
            &&& r.win.window_started_this_line == s.win.window_started_this_line
            &&& r.win.win_weoff_deferred_tail == s.win.win_weoff_deferred_tail
        }),
    decreases 160 - s.x,
{
    if s.x < 160 {
        lemma_draw(s, m);
        let (t, drawn) = s.draw_fifo_pixel(m);
        if drawn {
            lemma_flush(PpuView { x: (s.x + 1) as u8, ..t }, m);
        }
    }
}

/// Mode 3 ends when the clock reaches its end, not before: STAT shows mode 0,
/// what is queued is drawn, and the line is over unless a window has more to
/// come.
pub proof fn law_mode_3_ends_on_time(s: PpuView, m: Mmio)
    requires
        s.x <= 160,
        s.m0.m0_time_master is Some,
    ensures
        ({
            let (r, n, over) = s.reach_mode0(m);
            let due = m.master_cc >= s.m0.m0_time_master->0;
            &&& !due ==> r == s && n == m && !over
            &&& due && !s.m0.mode0_reported_this_line ==> n.stat & 0x03 == 0 && n.stat & 0xFC
                == m.stat & 0xFC
            &&& due && !s.win.window_started_this_line && !s.win.win_weoff_deferred_tail ==> over
            &&& over ==> r.state == State::HBlank
            &&& n.irq == m.irq
        }),
{
    law_stat_fields(m.stat, 0, false);
    let t = (PpuView {
        m0: crate::state::M0 { scheduled_mode0_dot: None, ..s.m0 },
        ..s
    }).report_mode0(m);
    lemma_flush(t.0, t.1);
}

/// The fetcher moves on every other dot.
pub proof fn law_fetcher_moves_every_other_dot(s: PpuView, m: Mmio)
    requires
        s.ticks < 0x1_0000,
        s.win.win_fetch_anchor matches Some(a) ==> a <= s.ticks,
    ensures
        m.cgb_features ==> s.count_cadence(m).cadence_even(m) != s.cadence_even(m),
        !m.cgb_features ==> (PpuView { ticks: (s.ticks + 1) as u128, ..s }).cadence_even(m)
            != s.cadence_even(m),
        m.cgb_features ==> s.cadence_even(m) == (s.objs.fetcher_cadence_tick % 2 == 0),
        !m.cgb_features && s.win.win_fetch_anchor is None ==> s.cadence_even(m) == (s.ticks % 2
            == 0),
{
    let t = s.objs.fetcher_cadence_tick;
    assert(m.cgb_features ==> s.count_cadence(m).objs == (Objs {
        fetcher_cadence_tick: t.wrapping_add(1),
        ..s.objs
    }));
}

/// On DMG a window at WX 166 starts for the line below as its own line ends, if
/// LY has met WY and it is switched on.
pub proof fn law_window_at_166_starts_below(s: PpuView, m: Mmio)
    requires
        !s.win.wxa6_lineend_applied,
        !s.clk.first_line_after_enable,
        s.lcdc.reg & 0x20 != 0,
        !s.win.win_draw_start,
        !s.win.win_draw_started,
    ensures
        ({
            let r = s.wxa6_lineend(m, false);
            let starts = m.wx == 166 && (s.win.window_y_triggered || s.latch.wy2 == m.ly);
            &&& r.win.win_draw_start == starts
            &&& r.win.win_y_pos == if starts { (s.win.win_y_pos + 1) % 256 } else {
                s.win.win_y_pos as int
            }
            &&& s.wxa6_lineend(m, true) == s
        }),
{
    reveal(PpuView::wxa6_lineend);
}

/// A DMG window that is switched off gives way at the start of its next tile; on
/// CGB, and in the middle of a tile, it does not.
pub proof fn law_window_gives_way_at_a_tile(s: PpuView, m: Mmio, even: bool)
    requires
        s.fetcher.fetching_window,
    ensures
        ({
            let r = s.kill_window(m, even);
            let off = if s.win.win_kill_tap_late {
                !s.win.we_dot_hist.d3
            } else {
                !s.win.we_dot_hist.d2
            };
            r.fetcher.fetching_window == !(!m.cgb_features && even
                && s.fetcher.state is TileNumber && off)
        }),
{
    reveal(PpuView::kill_window);
}

} // verus!
