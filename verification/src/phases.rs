//! What a dot of each mode leaves alone.

use vstd::prelude::*;

use crate::fetcher::{FetcherDebugEvent, FetcherLcdcState};
use crate::mmio::Mmio;
use crate::replot::law_replot_changes_the_picture_alone;
use crate::state::{PpuView, State};

verus! {

/// The same dot of the same mode.
pub open spec fn same_dot(a: PpuView, b: PpuView) -> bool {
    a.state == b.state && a.disabled == b.disabled && a.ticks == b.ticks
}

proof fn lemma_record_keeps(s: PpuView, e: FetcherDebugEvent, m: Mmio)
    ensures
        same_dot(s, s.record_fetch(e, m)),
        same_dot(s, s.note_tile_number(e)),
{
}

proof fn lemma_window_keeps(s: PpuView, m: Mmio, win_en: bool, even: bool)
    ensures
        same_dot(s, s.activate_window(m, win_en).0),
        same_dot(s, s.early_window(m).0),
        same_dot(s, s.deferred_window(m).0),
        same_dot(s, s.kill_window(m, even)),
{
    reveal(PpuView::activate_window);
    reveal(PpuView::early_window);
    reveal(PpuView::deferred_window);
    reveal(PpuView::kill_window);
    reveal(PpuView::begin_window_draw);
    reveal(PpuView::window_fetch);
}

proof fn lemma_scroll_keeps(s: PpuView, m: Mmio, armed: bool)
    ensures
        same_dot(s, s.rekey_scroll(m).0),
        same_dot(s, s.revert_scroll(m, armed)),
        same_dot(s, s.straddle_scroll(m, armed)),
        same_dot(s, s.prologue_scroll(m)),
{
    reveal(PpuView::rekey_scroll);
    reveal(PpuView::revert_scroll);
    reveal(PpuView::straddle_scroll);
    reveal(PpuView::prologue_scroll);
}

proof fn lemma_push_keeps(s: PpuView, m: Mmio, e: FetcherDebugEvent, discard: u8)
    ensures
        same_dot(s, s.after_push(m, e, discard)),
{
    let first_x = s.pushed_first_x(e, discard);
    let a = s.note_tile_start(m, first_x);
    let b = a.capture_tile(e, first_x);
    assert(same_dot(a, b)) by {
        reveal(PpuView::capture_tile);
    }
    let (c, armed) = b.rekey_scroll(m);
    lemma_scroll_keeps(b, m, armed);
    let d = c.revert_scroll(m, armed);
    lemma_scroll_keeps(c, m, armed);
    let f = d.straddle_scroll(m, armed);
    lemma_scroll_keeps(d, m, armed);
    lemma_scroll_keeps(f, m, armed);
}

proof fn lemma_fetch_keeps(
    s: PpuView,
    m: Mmio,
    even: bool,
    fls: FetcherLcdcState,
    discard: u8,
)
    ensures
        same_dot(s, s.fetch_step(m, even, fls, discard).0),
{
    reveal(PpuView::fetch_step);
    if even {
        let (fetcher, ev) = s.fetcher.step(m, fls, s.fetch_pos(discard));
        let t = PpuView { fetcher, ..s };
        if let Some(e) = ev {
            lemma_record_keeps(t, e, m);
            let u = t.note_tile_number(e);
            lemma_push_keeps(u, m, e, discard);
            lemma_record_keeps(u, e, m);
            lemma_record_keeps(u.after_push(m, e, discard), e, m);
        }
    }
}

proof fn lemma_draw_keeps(s: PpuView, m: Mmio)
    ensures
        same_dot(s, s.draw_fifo_pixel(m).0),
{
    reveal(PpuView::draw_fifo_pixel);
    reveal(PpuView::plot_color);
    reveal(PpuView::plot_compat);
    reveal(PpuView::plot_mono);
}

proof fn lemma_flush_keeps(s: PpuView, m: Mmio)
    ensures
        same_dot(s, s.flush_pixels(m)),
    decreases 160 - s.x,
{
    if s.x < 160 {
        lemma_draw_keeps(s, m);
        let (t, drawn) = s.draw_fifo_pixel(m);
        if drawn {
            lemma_flush_keeps(PpuView { x: (s.x + 1) as u8, ..t }, m);
        }
    }
}

proof fn lemma_end_line_keeps(s: PpuView, m: Mmio)
    ensures
        s.end_line(m).ticks == s.ticks,
        s.end_line(m).disabled == s.disabled,
        s.end_line(m).state == State::HBlank,
{
    reveal(PpuView::wxa6_lineend);
}

/// A dot before the fetch: the mode stays, or the line is over.
proof fn lemma_before_fetch_keeps(s: PpuView, m: Mmio, fast: bool)
    ensures
        ({
            let (t, n, over) = s.dot_before_fetch(m, fast);
            &&& t.ticks == s.ticks && t.disabled == s.disabled
            &&& t.state == s.state || (over && t.state == State::HBlank)
            &&& n == (Mmio { stat: n.stat, ..m })
        }),
{
    let a = s.shift_we_hist();
    let b = a.rekey_wx_change(m, fast);
    let c = b.resolve_wx_penalty(m, fast);
    assert(same_dot(s, c)) by {
        reveal(PpuView::shift_we_hist);
        reveal(PpuView::rekey_wx_change);
        reveal(PpuView::resolve_wx_penalty);
    }
    let d = PpuView {
        m0: crate::state::M0 { scheduled_mode0_dot: None, ..c.m0 },
        ..c
    };
    let (e, n) = d.report_mode0(m);
    lemma_flush_keeps(e, n);
    let u = e.flush_pixels(n);
    law_replot_changes_the_picture_alone(u, n);
    lemma_end_line_keeps(u.replot_trains(n), n);
    let (f, n1, over) = c.reach_mode0(m);
    if !over {
        let (g, took) = f.latch_scroll(n1);
        assert(same_dot(f, g)) by {
            reveal(PpuView::latch_scroll);
        }
        let (h, took2) = g.stall_for_sprites(n1);
        assert(same_dot(g, h)) by {
            reveal(PpuView::stall_for_sprites);
        }
        lemma_window_keeps(h, n1, true, true);
    }
}

proof fn lemma_drops_keep(s: PpuView, m: Mmio)
    ensures
        same_dot(s, s.chop_window().0),
        same_dot(s, s.discard_scroll(m).0),
        same_dot(s, s.find_strays(m)),
        same_dot(s, s.warm_up().0),
{
    reveal(PpuView::chop_window);
    reveal(PpuView::discard_scroll);
    reveal(PpuView::find_strays);
}

/// `t` and `n` follow `s` and `m` within the line.
spec fn within_line(s: PpuView, m: Mmio, t: PpuView, n: Mmio) -> bool {
    &&& t.ticks == s.ticks && t.disabled == s.disabled
    &&& t.state == s.state || t.state == State::HBlank
    &&& n == (Mmio { stat: n.stat, ..m })
}

proof fn lemma_draw_and_end_keeps(s: PpuView, m: Mmio)
    ensures
        within_line(s, m, s.draw_and_end(m).0, s.draw_and_end(m).1),
{
    reveal(PpuView::draw_and_end);
    lemma_draw_keeps(s, m);
    lemma_end_line_keeps(s.draw_fifo_pixel(m).0, m);
}

proof fn lemma_start_window_keeps(s: PpuView, m: Mmio)
    ensures
        same_dot(s, s.dot_start_window(m).0),
{
    reveal(PpuView::dot_start_window);
    let (a, _t1) = s.warm_up();
    lemma_drops_keep(s, m);
    lemma_window_keeps(a, m, true, true);
    let (b, _t2) = a.deferred_window(m);
    lemma_window_keeps(b, m, b.trigger_we(m), true);
}

proof fn lemma_put_pixel_keeps(s: PpuView, m: Mmio)
    ensures
        within_line(s, m, s.dot_put_pixel(m).0, s.dot_put_pixel(m).1),
{
    reveal(PpuView::dot_put_pixel);
    let (d, _t4) = s.chop_window();
    lemma_drops_keep(s, m);
    let (e, _t5) = d.discard_scroll(m);
    lemma_drops_keep(d, m);
    lemma_drops_keep(e, m);
    lemma_draw_and_end_keeps(e.find_strays(m), m);
}

proof fn lemma_after_fetch_keeps(s: PpuView, m: Mmio)
    ensures
        within_line(s, m, s.dot_after_fetch(m).0, s.dot_after_fetch(m).1),
{
    lemma_start_window_keeps(s, m);
    lemma_put_pixel_keeps(s.dot_start_window(m).0, m);
}

/// A dot of mode 3 stays in mode 3 or ends the line, and changes nothing of the
/// bus but STAT.
pub proof fn lemma_mode3_keeps(s: PpuView, m: Mmio, fast: bool)
    ensures
        ({
            let (t, n) = s.step_mode3_dot(m, fast);
            &&& t.ticks == s.ticks && t.disabled == s.disabled
            &&& t.state == s.state || t.state == State::HBlank
            &&& n == (Mmio { stat: n.stat, ..m })
        }),
{
    lemma_before_fetch_keeps(s, m, fast);
    let (t, n, over) = s.dot_before_fetch(m, fast);
    if !over {
        let even = t.cadence_even(n);
        let a = t.count_cadence(n);
        let b = a.kill_window(n, even);
        lemma_window_keeps(a, n, true, even);
        let c = b.anchor_bg(n, even);
        assert(same_dot(b, c)) by {
            reveal(PpuView::anchor_bg);
        }
        lemma_fetch_keeps(
            c,
            n,
            even,
            c.bg_wg_apply(c.wg_apply(c.fetcher_lcdc_state())),
            c.pending_discard(),
        );
        lemma_after_fetch_keeps(t.dot_fetch(n), n);
    }
}

proof fn lemma_arm_keeps(s: PpuView, m: Mmio)
    ensures
        ({
            let (t, n) = s.arm_mode3(m);
            &&& t.ticks == s.ticks && t.disabled == s.disabled
            &&& t.state == State::PixelTransfer
            &&& n == (Mmio { stat: n.stat, hdma_tracker_sleep: n.hdma_tracker_sleep, ..m })
        }),
{
    let first = s.clk.first_line_after_enable;
    let a = s.arm_sprites(m);
    let b = a.arm_reset(m);
    assert(b.ticks == a.ticks && b.disabled == a.disabled && b.state == State::PixelTransfer) by {
        reveal(PpuView::arm_reset);
    }
    let c = b.arm_window(m);
    assert(same_dot(b, c)) by {
        reveal(PpuView::arm_window);
    }
    let d = c.arm_scroll(m, first);
    assert(same_dot(c, d)) by {
        reveal(PpuView::arm_scroll);
    }
    let e = d.arm_records(m);
    assert(same_dot(d, e)) by {
        reveal(PpuView::arm_records);
    }
    reveal(PpuView::arm_schedule_line);
}

/// A dot of mode 2 stays in mode 2 or starts mode 3, on the same line.
pub proof fn lemma_mode2_keeps(s: PpuView, m: Mmio)
    ensures
        ({
            let (t, n) = s.step_mode2(m);
            &&& t.ticks == s.ticks && t.disabled == s.disabled
            &&& t.state == s.state || t.state == State::PixelTransfer
            &&& n == (Mmio { stat: n.stat, hdma_tracker_sleep: n.hdma_tracker_sleep, ..m })
        }),
{
    let a = s.mode2_line_start();
    assert(same_dot(s, a)) by {
        reveal(PpuView::mode2_line_start);
    }
    let (b, n) = a.mode2_first_line(m);
    assert(same_dot(a, b) && n == (Mmio { stat: n.stat, ..m })) by {
        reveal(PpuView::mode2_first_line);
    }
    let c = b.mode2_scan_slot(n);
    assert(same_dot(b, c)) by {
        reveal(PpuView::mode2_scan_slot);
    }
    lemma_arm_keeps(c, n);
}

} // verus!
