//! How far clock readings can drift over a dot.

use vstd::prelude::*;

use crate::fetcher::{FetcherDebugEvent, FetcherLcdcState};
use crate::lcdc_write::{lemma_visible_keeps_queue, lemma_visible_keeps_start};
use crate::m3_length::law_m3_length_bounds;
use crate::mmio::{oam_positions, Mmio};
use crate::oam_reader::OamReaderView;
use crate::oam_scan::{law_line_holds_ten_objects, scan_result};
use crate::objects::lemma_sort_sprites_len;
use crate::phases::{lemma_mode2_keeps, lemma_mode3_keeps};
use crate::regs::{lcdc_has, signed, LCDCFlags, CLOCK_LIMIT};
use crate::replot::law_replot_changes_the_picture_alone;
use crate::stat_irq::{
    earlier, law_dispatch_keeps_the_line, lemma_events_stay, lemma_irq_events_keep_line,
};
use crate::state::{Clk, M0, Objs, PpuView, State};

verus! {

/// A bound on clock readings that leaves room for some dots more.
pub open spec fn roomy(b: int) -> bool {
    0x1_0000 <= b <= CLOCK_LIMIT / 2
}

/// The clock runs on from where it started, and no event goes unnoticed.
pub open spec fn same_clock(s: PpuView, t: PpuView) -> bool {
    &&& t.clk.p_now == s.clk.p_now
    &&& t.disabled == s.disabled
    &&& s.sched_sound() ==> t.sched_sound()
}

/// How far a dot moves clock readings at most.
pub const DRIFT: u64 = 64;

/// `t` follows `s` on the same dot of mode 3: what is bounded stays so, and a
/// fine scroll that has been found stays found.
pub open spec fn on_dot(s: PpuView, t: PpuView, b: int) -> bool {
    &&& t.within(b)
    &&& same_clock(s, t)
    &&& t.ticks == s.ticks
    &&& t.state == s.state
    &&& t.m3.m3_arm_dot == s.m3.m3_arm_dot
    &&& t.x == 0 && t.m3.m3_discard_target < 0 ==> s.x == 0 && s.m3.m3_discard_target < 0
}

proof fn lemma_record_on_dot(s: PpuView, e: FetcherDebugEvent, m: Mmio, b: int)
    requires
        s.within(b),
    ensures
        on_dot(s, s.record_fetch(e, m), b),
        on_dot(s, s.note_tile_number(e), b),
{
}

proof fn lemma_window_on_dot(s: PpuView, m: Mmio, win_en: bool, even: bool, b: int)
    requires
        s.within(b),
    ensures
        on_dot(s, s.activate_window(m, win_en).0, b),
        on_dot(s, s.early_window(m).0, b),
        on_dot(s, s.deferred_window(m).0, b),
        on_dot(s, s.kill_window(m, even), b),
        s.activate_window(m, win_en).0.x == s.x,
        s.early_window(m).0.x == s.x,
        s.deferred_window(m).0.x == s.x,
        s.kill_window(m, even).x == s.x,
{
    reveal(PpuView::activate_window);
    reveal(PpuView::early_window);
    reveal(PpuView::deferred_window);
    reveal(PpuView::kill_window);
    reveal(PpuView::begin_window_draw);
    reveal(PpuView::window_fetch);
    reveal(PpuView::wg_set_anchor);
}

proof fn lemma_scroll_on_dot(s: PpuView, m: Mmio, armed: bool, b: int)
    requires
        s.within(b),
    ensures
        on_dot(s, s.rekey_scroll(m).0, b),
        on_dot(s, s.revert_scroll(m, armed), b),
        on_dot(s, s.straddle_scroll(m, armed), b),
        on_dot(s, s.prologue_scroll(m), b),
        s.rekey_scroll(m).0.x == s.x,
        s.revert_scroll(m, armed).x == s.x,
        s.straddle_scroll(m, armed).x == s.x,
        s.prologue_scroll(m).x == s.x,
{
    reveal(PpuView::rekey_scroll);
    reveal(PpuView::revert_scroll);
    reveal(PpuView::straddle_scroll);
    reveal(PpuView::prologue_scroll);
}

proof fn lemma_push_on_dot(s: PpuView, m: Mmio, e: FetcherDebugEvent, discard: u8, b: int)
    requires
        s.within(b),
    ensures
        on_dot(s, s.after_push(m, e, discard), b),
        s.after_push(m, e, discard).x == s.x,
{
    let first_x = s.pushed_first_x(e, discard);
    let s1 = s.note_tile_start(m, first_x);
    assert(on_dot(s, s1, b)) by {
        reveal(PpuView::noted_tile_start);
    }
    let s2 = s1.capture_tile(e, first_x);
    assert(on_dot(s1, s2, b) && s2.x == s1.x) by {
        reveal(PpuView::capture_tile);
    }
    let (s3, armed) = s2.rekey_scroll(m);
    lemma_scroll_on_dot(s2, m, armed, b);
    let s4 = s3.revert_scroll(m, armed);
    lemma_scroll_on_dot(s3, m, armed, b);
    let s5 = s4.straddle_scroll(m, armed);
    lemma_scroll_on_dot(s4, m, armed, b);
    lemma_scroll_on_dot(s5, m, armed, b);
}

proof fn lemma_fetch_on_dot(
    s: PpuView,
    m: Mmio,
    even: bool,
    fls: FetcherLcdcState,
    discard: u8,
    b: int,
)
    requires
        s.within(b),
    ensures
        on_dot(s, s.fetch_step(m, even, fls, discard).0, b),
        s.fetch_step(m, even, fls, discard).0.x == s.x,
{
    reveal(PpuView::fetch_step);
    if even {
        let (fetcher, ev) = s.fetcher.step(m, fls, s.fetch_pos(discard));
        let t = PpuView { fetcher, ..s };
        if let Some(e) = ev {
            lemma_record_on_dot(t, e, m, b);
            let u = t.note_tile_number(e);
            lemma_push_on_dot(u, m, e, discard, b);
            lemma_record_on_dot(u, e, m, b);
            lemma_record_on_dot(u.after_push(m, e, discard), e, m, b);
        }
    }
}

proof fn lemma_draw_on_dot(s: PpuView, m: Mmio, b: int)
    requires
        s.within(b),
        s.x <= 160,
    ensures
        on_dot(s, s.draw_fifo_pixel(m).0, b),
{
    reveal(PpuView::draw_fifo_pixel);
    reveal(PpuView::plot_color);
    reveal(PpuView::plot_compat);
    reveal(PpuView::plot_mono);
}

proof fn lemma_flush_on_dot(s: PpuView, m: Mmio, b: int)
    requires
        s.within(b),
    ensures
        on_dot(s, s.flush_pixels(m), b),
    decreases 160 - s.x,
{
    if s.x < 160 {
        lemma_draw_on_dot(s, m, b);
        let (t, drawn) = s.draw_fifo_pixel(m);
        if drawn {
            lemma_flush_on_dot(PpuView { x: (s.x + 1) as u8, ..t }, m, b);
        }
    }
}

/// The line has ended on the dot of `s`.
pub open spec fn line_ended(s: PpuView, t: PpuView, b: int) -> bool {
    t.within(b) && same_clock(s, t) && t.ticks == s.ticks && t.state == State::HBlank
}

proof fn lemma_end_line_bounded(s: PpuView, m: Mmio, b: int)
    requires
        s.within(b),
    ensures
        line_ended(s, s.end_line(m), b),
        line_ended(s, s.end_line(m).report_mode0(m).0, b),
        on_dot(s, s.report_mode0(m).0, b),
{
    reveal(PpuView::wxa6_lineend);
    if s.sched_sound() {
        lemma_events_stay(s, s.end_line(m));
        lemma_events_stay(s, s.end_line(m).report_mode0(m).0);
    }
}

proof fn lemma_drops_on_dot(s: PpuView, m: Mmio, b: int)
    requires
        s.within(b),
    ensures
        on_dot(s, s.chop_window().0, b),
        on_dot(s, s.discard_scroll(m).0, b),
        on_dot(s, s.find_strays(m), b),
        on_dot(s, s.warm_up().0, b),
        s.chop_window().0.x == s.x,
        s.discard_scroll(m).0.x == s.x,
        s.find_strays(m).x == s.x,
{
    assert(on_dot(s, s.chop_window().0, b) && s.chop_window().0.x == s.x) by {
        reveal(PpuView::chop_window);
    }
    assert(on_dot(s, s.discard_scroll(m).0, b) && s.discard_scroll(m).0.x == s.x) by {
        reveal(PpuView::discard_scroll);
    }
    assert(on_dot(s, s.find_strays(m), b) && s.find_strays(m).x == s.x) by {
        reveal(PpuView::find_strays);
    }
}

/// What a dot of mode 3 comes to: the line goes on or has ended.
pub open spec fn dot_done(s: PpuView, t: PpuView, b: int) -> bool {
    on_dot(s, t, b) || line_ended(s, t, b)
}

proof fn lemma_draw_and_end_bounded(s: PpuView, m: Mmio, b: int)
    requires
        s.within(b),
        s.x <= 160,
    ensures
        dot_done(s, s.draw_and_end(m).0, b),
{
    reveal(PpuView::draw_and_end);
    lemma_draw_on_dot(s, m, b);
    lemma_end_line_bounded(s.draw_fifo_pixel(m).0, m, b);
}

proof fn lemma_start_window_on_dot(s: PpuView, m: Mmio, b: int)
    requires
        s.within(b),
    ensures
        on_dot(s, s.dot_start_window(m).0, b),
        s.dot_start_window(m).0.x == s.x,
{
    reveal(PpuView::dot_start_window);
    let (s1, _t1) = s.warm_up();
    lemma_drops_on_dot(s, m, b);
    lemma_window_on_dot(s1, m, true, true, b);
    let (s2, _t2) = s1.deferred_window(m);
    lemma_window_on_dot(s2, m, s2.trigger_we(m), true, b);
}

proof fn lemma_put_pixel_bounded(s: PpuView, m: Mmio, b: int)
    requires
        s.within(b),
        s.x <= 160,
    ensures
        dot_done(s, s.dot_put_pixel(m).0, b),
{
    reveal(PpuView::dot_put_pixel);
    let (s1, _t1) = s.chop_window();
    lemma_drops_on_dot(s, m, b);
    let (s2, _t2) = s1.discard_scroll(m);
    lemma_drops_on_dot(s1, m, b);
    lemma_drops_on_dot(s2, m, b);
    lemma_draw_and_end_bounded(s2.find_strays(m), m, b);
}

proof fn lemma_after_fetch_bounded(s: PpuView, m: Mmio, b: int)
    requires
        s.within(b),
        s.x <= 160,
    ensures
        dot_done(s, s.dot_after_fetch(m).0, b),
{
    lemma_start_window_on_dot(s, m, b);
    lemma_put_pixel_bounded(s.dot_start_window(m).0, m, b);
}

impl PpuView {
    /// Before the first pixel the fine scroll is found within 80 dots.
    pub open spec fn scroll_due(self) -> bool {
        self.state == State::PixelTransfer && self.x == 0 && self.m3.m3_discard_target < 0
            ==> self.ticks <= self.m3.m3_arm_dot + 81
    }
}

proof fn lemma_schedule_on_dot(s: PpuView, m: Mmio, fast: bool, b: int)
    requires
        s.within(b),
        roomy(b),
    ensures
        on_dot(s, s.shift_we_hist(), b),
        on_dot(s, s.rekey_wx_change(m, fast), b + 1),
        on_dot(s, s.resolve_wx_penalty(m, fast), b),
        s.shift_we_hist().x == s.x,
        s.rekey_wx_change(m, fast).x == s.x,
        s.resolve_wx_penalty(m, fast).x == s.x,
{
    reveal(PpuView::shift_we_hist);
    reveal(PpuView::rekey_wx_change);
    reveal(PpuView::resolve_wx_penalty);
}

proof fn lemma_latch_scroll_bounded(s: PpuView, m: Mmio, b: int)
    requires
        s.within(b),
        roomy(b),
        s.state == State::PixelTransfer,
        s.scroll_due(),
    ensures
        on_dot(s, s.latch_scroll(m).0, b + 30),
        s.latch_scroll(m).0.x == s.x,
        ({
            let t = s.latch_scroll(m).0;
            t.x == 0 && t.m3.m3_discard_target < 0 ==> t.ticks <= t.m3.m3_arm_dot + 80
        }),
{
    reveal(PpuView::latch_scroll);
}

/// What a dot of mode 3 comes to, the scroll included.
pub open spec fn dot_bounded(s: PpuView, t: PpuView, b: int) -> bool {
    &&& dot_done(s, t, b)
    &&& t.state == State::PixelTransfer && t.x == 0 && t.m3.m3_discard_target < 0 ==> t.ticks
        <= t.m3.m3_arm_dot + 80
}

proof fn lemma_reach_mode0_bounded(s: PpuView, m: Mmio, b: int)
    requires
        s.within(b),
        s.x <= 160,
    ensures
        dot_done(s, s.reach_mode0(m).0, b),
        !s.reach_mode0(m).2 ==> on_dot(s, s.reach_mode0(m).0, b),
        s.reach_mode0(m).2 ==> line_ended(s, s.reach_mode0(m).0, b),
        s.reach_mode0(m).0.x <= 160,
{
    let s1 = PpuView { m0: M0 { scheduled_mode0_dot: None, ..s.m0 }, ..s };
    let (t, n) = s1.report_mode0(m);
    lemma_end_line_bounded(s1, m, b);
    lemma_flush_on_dot(t, n, b);
    let u = t.flush_pixels(n);
    law_replot_changes_the_picture_alone(u, n);
    lemma_end_line_bounded(u.replot_trains(n), n, b);
    lemma_flush_x(t, n);
    lemma_end_line_x(u.replot_trains(n), n);
}

proof fn lemma_end_line_x(s: PpuView, m: Mmio)
    ensures
        s.end_line(m).x == s.x,
{
    reveal(PpuView::wxa6_lineend);
}

proof fn lemma_flush_x(s: PpuView, m: Mmio)
    requires
        s.x <= 160,
    ensures
        s.flush_pixels(m).x <= 160,
    decreases 160 - s.x,
{
    if s.x < 160 {
        let (t, drawn) = s.draw_fifo_pixel(m);
        if drawn {
            lemma_flush_x(PpuView { x: (s.x + 1) as u8, ..t }, m);
        } else {
            reveal(PpuView::draw_fifo_pixel);
        }
    }
}

proof fn lemma_before_fetch_bounded(s: PpuView, m: Mmio, fast: bool, b: int)
    requires
        s.within(b),
        roomy(b + 1),
        roomy(b),
        s.state == State::PixelTransfer,
        s.scroll_due(),
        s.x <= 160,
    ensures
        ({
            let (t, n, over) = s.dot_before_fetch(m, fast);
            &&& dot_bounded(s, t, b + 31)
            &&& !over ==> on_dot(s, t, b + 31) && t.x <= 160
        }),
{
    let s1 = s.shift_we_hist();
    lemma_schedule_on_dot(s, m, fast, b);
    let s2 = s1.rekey_wx_change(m, fast);
    lemma_schedule_on_dot(s1, m, fast, b);
    let s3 = s2.resolve_wx_penalty(m, fast);
    lemma_schedule_on_dot(s2, m, fast, b + 1);
    lemma_reach_mode0_bounded(s3, m, b + 1);
    let (s4, n, over) = s3.reach_mode0(m);
    if !over {
        lemma_latch_scroll_bounded(s4, n, b + 1);
        let (s5, took2) = s4.latch_scroll(n);
        if !took2 {
            let (s6, took3) = s5.stall_for_sprites(n);
            assert(on_dot(s5, s6, b + 31) && s6.x == s5.x) by {
                reveal(PpuView::stall_for_sprites);
            }
            lemma_window_on_dot(s6, n, true, true, b + 31);
        }
    }
}

proof fn lemma_dot_fetch_bounded(s: PpuView, m: Mmio, b: int)
    requires
        s.within(b),
    ensures
        on_dot(s, s.dot_fetch(m), b),
        s.dot_fetch(m).x == s.x,
{
    let even = s.cadence_even(m);
    let s1 = s.count_cadence(m);
    let s2 = s1.kill_window(m, even);
    lemma_window_on_dot(s1, m, true, even, b);
    let s3 = s2.anchor_bg(m, even);
    assert(on_dot(s2, s3, b) && s3.x == s2.x) by {
        reveal(PpuView::anchor_bg);
    }
    lemma_fetch_on_dot(
        s3,
        m,
        even,
        s3.bg_wg_apply(s3.wg_apply(s3.fetcher_lcdc_state())),
        s3.pending_discard(),
        b,
    );
}

/// A dot of mode 3 moves what is scheduled by a few cycles at most.
pub proof fn lemma_mode3_bounded(s: PpuView, m: Mmio, fast: bool, b: int)
    requires
        s.within(b),
        roomy(b + 1),
        roomy(b),
        s.state == State::PixelTransfer,
        s.scroll_due(),
        s.x <= 160,
    ensures
        dot_bounded(s, s.step_mode3_dot(m, fast).0, b + 31),
{
    lemma_before_fetch_bounded(s, m, fast, b);
    let (t, n, over) = s.dot_before_fetch(m, fast);
    if !over {
        lemma_dot_fetch_bounded(t, n, b + 31);
        lemma_after_fetch_bounded(t.dot_fetch(n), n, b + 31);
    }
}

impl PpuView {
    /// The line holds no more than it has room for.
    pub open spec fn fits(self) -> bool {
        self.x <= 160 && self.line.sprites.len() <= 10 && self.clk.line_cycle < 456
    }
}

proof fn lemma_armed_sprites(s: PpuView, m: Mmio)
    requires
        s.fits(),
    ensures
        s.arm_sprites(m).fits(),
{
    let s0 = PpuView { objs: Objs { next_sprite_fetch_index: 0, ..s.objs }, ..s };
    let t = if s.clk.first_line_after_enable { s0 } else { s0.build_sprites(m) };
    assert(t.line.sprites.len() <= 10) by {
        reveal(scan_result);
        let u = (OamReaderView {
            large_src: s0.lcdc_has(LCDCFlags::SpriteSize),
            ..s0.oam_reader
        }).update(s0.clk.abs_cc, s0.ly_counter(m), oam_positions(m.oam@));
        law_line_holds_ten_objects(m, u, s0.line.slot_large, 40);
    }
    lemma_sort_sprites_len(m.cgb_features, t.line.sprites);
}

proof fn lemma_line_times(s: PpuView, m: Mmio, b: int)
    requires
        s.within(b),
        roomy(b),
        s.fits(),
    ensures
        0 <= s.cgbp_begin_exact(m) < 3 * b,
        0 <= s.m0_time_exact(m, s.m3_length(m, m.cgb_features), m.cgb_features, true) < 3 * b,
        0 <= s.line_m0_time(m) < 3 * b,
{
    law_m3_length_bounds(s, m, m.cgb_features);
}

proof fn lemma_arm_line(s: PpuView, m: Mmio, first: bool, b: int)
    requires
        s.within(b),
        s.fits(),
    ensures
        ({
            let t = s.arm_sprites(m).arm_reset(m).arm_window(m).arm_scroll(m, first).arm_records(m);
            &&& t.within(b)
            &&& t.fits()
            &&& same_clock(s, t)
            &&& t.ticks == s.ticks
            &&& t.m3.m3_arm_dot == t.ticks
            &&& t.state == State::PixelTransfer
        }),
{
    let s1 = s.arm_sprites(m);
    assert(s1.within(b) && s1.fits() && same_clock(s, s1) && s1.ticks == s.ticks) by {
        lemma_armed_sprites(s, m);
    }
    let s2 = s1.arm_reset(m);
    assert(s2.within(b) && s2.fits() && same_clock(s, s2) && s2.ticks == s.ticks && s2.state == State::PixelTransfer)
        by {
        reveal(PpuView::arm_reset);
    }
    let s3 = s2.arm_window(m);
    assert(s3.within(b) && s3.fits() && same_clock(s, s3) && s3.ticks == s.ticks && s3.state == s2.state) by {
        reveal(PpuView::arm_window);
    }
    let s4 = s3.arm_scroll(m, first);
    assert(s4.within(b) && s4.fits() && same_clock(s, s4) && s4.ticks == s.ticks && s4.state == s2.state
        && s4.m3.m3_arm_dot == s4.ticks) by {
        reveal(PpuView::arm_scroll);
        if s3.sched_sound() {
            lemma_events_stay(s3, s4);
        }
    }
    reveal(PpuView::arm_records);
}

proof fn lemma_arm_bounded(s: PpuView, m: Mmio, b: int)
    requires
        s.within(b),
        s.fits(),
        roomy(b),
        m.master_cc < b,
    ensures
        s.arm_mode3(m).0.within(b),
        same_clock(s, s.arm_mode3(m).0),
        s.arm_mode3(m).0.scroll_due(),
        s.arm_mode3(m).0.ticks == s.ticks,
        s.arm_mode3(m).0.ticks == s.arm_mode3(m).0.m3.m3_arm_dot,
{
    let first = s.clk.first_line_after_enable;
    let n = Mmio { stat: crate::power::stat_with_mode(m.stat, 3), ..m };
    let t = s.arm_sprites(m).arm_reset(m).arm_window(m).arm_scroll(m, first).arm_records(m);
    lemma_arm_line(s, m, first, b);
    lemma_line_times(t, n, b);
    reveal(PpuView::arm_schedule_line);
}

proof fn lemma_mode2_bounded(s: PpuView, m: Mmio, b: int)
    requires
        s.within(b),
        s.fits(),
        s.state == State::OAMSearch,
        roomy(b),
        m.master_cc < b,
    ensures
        ({
            let t = s.step_mode2(m).0;
            &&& t.within(b)
            &&& same_clock(s, t)
            &&& t.ticks == s.ticks
            &&& t.state == State::PixelTransfer ==> t.m3.m3_arm_dot == t.ticks
        }),
{
    let s1 = s.mode2_line_start();
    assert(s1.within(b) && s1.fits() && same_clock(s, s1) && s1.ticks == s.ticks && s1.state == s.state) by {
        reveal(PpuView::mode2_line_start);
    }
    let (s2, n) = s1.mode2_first_line(m);
    lemma_line_times(s1, m, b);
    assert(s2.within(b) && s2.fits() && same_clock(s, s2) && s2.ticks == s.ticks && s2.state == s.state && n.master_cc
        == m.master_cc) by {
        reveal(PpuView::mode2_first_line);
    }
    let s3 = s2.mode2_scan_slot(n);
    assert(s3.within(b) && s3.fits() && same_clock(s, s3) && s3.ticks == s.ticks && s3.state == s.state) by {
        reveal(PpuView::mode2_scan_slot);
    }
    if s3.ticks == s3.arm_dot(n) {
        lemma_arm_bounded(s3, n, b);
    }
}

proof fn lemma_next_scan_bounded(s: PpuView, m: Mmio, b: int)
    requires
        s.within(b),
        s.fits(),
        roomy(b),
    ensures
        s.enter_scheduled_mode2(m).0.within(b),
        same_clock(s, s.enter_scheduled_mode2(m).0),
        s.enter_scheduled_mode2(m).0.ticks == s.ticks,
        s.enter_scheduled_mode2(m).0.state == s.state,
{
    lemma_line_times(s, m, b);
    reveal(PpuView::enter_scheduled_mode2);
}

proof fn lemma_hblank_bounded(s: PpuView, m: Mmio, b: int)
    requires
        s.within(b),
        s.fits(),
        s.state == State::HBlank,
        roomy(b),
    ensures
        ({
            let (t, n, ended) = s.step_hblank(m);
            &&& t.within(b)
            &&& same_clock(s, t)
            &&& t.state != State::PixelTransfer
            &&& n.master_cc == m.master_cc
        }),
{
    reveal(PpuView::enter_vblank);
    reveal(PpuView::enter_scheduled_mode2);
    if s.sched_sound() {
        lemma_events_stay(s, s.enter_vblank(m).0);
    }
    lemma_next_scan_bounded(
        PpuView { ticks: 0, state: State::OAMSearch, ..s },
        Mmio { ly: (m.ly + 1) as u8, ..m },
        b,
    );
}

proof fn lemma_vblank_bounded(s: PpuView, m: Mmio, b: int)
    requires
        s.within(b),
        s.fits(),
        s.state == State::VBlank,
        roomy(b),
    ensures
        ({
            let (t, n, ended) = s.step_vblank(m);
            &&& t.within(b)
            &&& same_clock(s, t)
            &&& t.state != State::PixelTransfer
            &&& n.master_cc == m.master_cc
        }),
{
    let (s1, n) = s.zero_line_153(m);
    assert(s1.within(b) && s1.fits() && same_clock(s, s1) && s1.state == s.state && n.master_cc
        == m.master_cc) by {
        reveal(PpuView::zero_line_153);
        if s.sched_sound() {
            lemma_events_stay(s, s1);
        }
    }
    reveal(PpuView::next_vblank_line);
    lemma_end_frame_bounded(s1, n, b);
}

proof fn lemma_end_frame_bounded(s: PpuView, m: Mmio, b: int)
    requires
        s.within(b),
        s.fits(),
        roomy(b),
    ensures
        s.end_frame(m).0.within(b),
        same_clock(s, s.end_frame(m).0),
        s.end_frame(m).1.master_cc == m.master_cc,
        s.end_frame(m).0.state == State::OAMSearch,
{
    lemma_line_times(s, m, b);
    reveal(PpuView::finished_speed);
    reveal(PpuView::enter_scheduled_mode2);
    let t = s.end_frame(m).0;
    if s.sched_sound() {
        lemma_events_stay(s, t);
    }
    assert(t.m0.cgbp_block_start_cc == Some(s.cgbp_begin_exact(m) as u64));
}

proof fn lemma_dispatch_bounded(s: PpuView, m: Mmio, b: int)
    requires
        s.within(b),
    ensures
        s.dispatch_stat_events(m).0.within(b),
        s.dispatch_stat_events(m).0.m3 == s.m3,
        s.dispatch_stat_events(m).0.x == s.x,
        s.dispatch_stat_events(m).0.line == s.line,
        s.sched_sound() ==> s.dispatch_stat_events(m).0.sched_sound(),
{
    law_dispatch_keeps_the_line(s, m);
    lemma_irq_events_keep_line(s.clk, s.ly_counter(m), m.lyc);
    let s1 = s.due_writes(m);
    let clk = s1.clk.irq_events(s.ly_counter(m), m.lyc).0;
    let bound = earlier(clk.next_irq(), s1.latch.next_due());
    assert((Clk { sched_min: bound, ..clk }).next_irq() == clk.next_irq()) by {
        reveal(Clk::next_irq);
    }
    reveal(PpuView::due_writes);
    reveal(PpuView::due_irqs);
}

proof fn lemma_dot_clock_bounded(s: PpuView, m: Mmio, b: int)
    requires
        s.within(b),
        s.fits(),
        roomy(b),
        m.master_cc < b,
        0 <= m.master_cc - signed(s.clk.p_now) < b,
    ensures
        ({
            let (t, n, fast) = s.dot_clock(m);
            &&& t.within(b)
            &&& t.fits()
            &&& t.ticks == s.ticks && t.state == s.state && t.x == s.x && t.m3 == s.m3
            &&& same_clock(s, t)
            &&& n.master_cc == m.master_cc
        }),
{
    reveal(PpuView::dot_clock);
    let (clk, fast) = s.fast_gate(m);
    let s1 = PpuView { clk, ..s };
    assert(s1.within(b) && s1.clk.p_now == s.clk.p_now && s1.clk.line_cycle == s.clk.line_cycle)
        by {
        reveal(PpuView::fast_gate);
    }
    if s.sched_sound() {
        assert(s1.sched_sound()) by {
            reveal(PpuView::fast_gate);
            lemma_events_stay(s, s1);
        }
    }
    lemma_dispatch_bounded(s1, m, b);
    law_dispatch_keeps_the_line(s1, m);
    reveal(PpuView::advanced_clock);
    let s2 = if fast { s1 } else { s1.dispatch_stat_events(m).0 };
    let t = s.dot_clock(m).0;
    if s.sched_sound() {
        lemma_events_stay(s2, t);
    }
}

proof fn lemma_preamble_bounded(s: PpuView, m: Mmio, b: int)
    requires
        s.within(b),
        s.fits(),
        roomy(b),
        m.master_cc < b,
        0 <= m.master_cc - signed(s.clk.p_now) < b,
    ensures
        ({
            let (t, n, fast) = s.dot_preamble(m);
            &&& t.within(b)
            &&& t.fits()
            &&& t.ticks == s.ticks && t.state == s.state && t.x == s.x && t.m3 == s.m3
            &&& same_clock(s, t)
            &&& n.master_cc == m.master_cc
        }),
{
    reveal(PpuView::dot_preamble);
    lemma_dot_clock_bounded(s, m, b);
    let (s1, m1, fast) = s.dot_clock(m);
    lemma_events_bounded(s1, m1, b);
    let (s2, m2) = s1.oam_reader_events(m1);
    lemma_events_bounded(s2, s2.lyc_flagged(m2, fast), b);
}

proof fn lemma_events_bounded(s: PpuView, m: Mmio, b: int)
    requires
        s.within(b),
        s.fits(),
    ensures
        ({
            let (t, n) = s.oam_reader_events(m);
            &&& t.within(b)
            &&& t.fits()
            &&& t.ticks == s.ticks && t.state == s.state && t.x == s.x && t.m3 == s.m3
            &&& same_clock(s, t)
            &&& n.master_cc == m.master_cc
        }),
        ({
            let t = s.update_window_y_latch(m);
            &&& t.within(b)
            &&& t.fits()
            &&& t.ticks == s.ticks && t.state == s.state && t.x == s.x && t.m3 == s.m3
            &&& same_clock(s, t)
        }),
{
    reveal(PpuView::oam_reader_events);
    reveal(PpuView::update_window_y_latch);
}

impl PpuView {
    /// All that a dot needs of the clocks, bounded by `b`.
    pub open spec fn clocked(self, m: Mmio, b: int) -> bool {
        &&& self.within(b)
        &&& self.scroll_due()
        &&& m.master_cc < b
        &&& !self.disabled ==> 0 <= m.master_cc - signed(self.clk.p_now) < b
    }
}

proof fn lemma_mode_bounded(s: PpuView, m: Mmio, fast: bool, b: int)
    requires
        s.within(b),
        s.fits(),
        s.scroll_due(),
        m.master_cc < b,
        roomy(b),
        roomy(b + 1),
    ensures
        ({
            let (t, n, ended) = s.dot_of_mode(m, fast);
            &&& t.within(b + 31)
            &&& same_clock(s, t)
            &&& n.master_cc == m.master_cc
            &&& ended ==> t.state != State::PixelTransfer
            &&& t.state == State::PixelTransfer && t.x == 0 && t.m3.m3_discard_target < 0
                ==> t.ticks <= t.m3.m3_arm_dot + 80
        }),
{
    reveal(PpuView::dot_of_mode);
    match s.state {
        State::OAMSearch => {
            lemma_mode2_keeps(s, m);
            lemma_mode2_bounded(s, m, b);
        },
        State::PixelTransfer => {
            lemma_mode3_keeps(s, m, fast);
            lemma_mode3_bounded(s, m, fast, b);
        },
        State::HBlank => lemma_hblank_bounded(s, m, b),
        State::VBlank => lemma_vblank_bounded(s, m, b),
    }
}

proof fn lemma_dot_bounded(s: PpuView, m: Mmio, b: int)
    requires
        s.clocked(m, b),
        s.fits(),
        !s.disabled,
        roomy(b),
        roomy(b + 1),
    ensures
        s.run_dot(m).0.clocked(s.run_dot(m).1, b + 32),
        same_clock(s, s.run_dot(m).0),
{
    let (t, n, fast) = s.dot_preamble(m);
    assert(t.within(b) && t.fits() && t.scroll_due() && same_clock(s, t) && n.master_cc
        == m.master_cc) by {
        lemma_preamble_bounded(s, m, b);
    }
    let (u, k, ended) = t.dot_of_mode(n, fast);
    assert(u.within(b + 31) && same_clock(t, u) && k.master_cc == n.master_cc && (ended ==> u.state
        != State::PixelTransfer) && (u.state == State::PixelTransfer && u.x == 0
        && u.m3.m3_discard_target < 0 ==> u.ticks <= u.m3.m3_arm_dot + 80)) by {
        lemma_mode_bounded(t, n, fast, b);
    }
    if !ended && u.sched_sound() {
        lemma_events_stay(u, u.dot_end(k));
    }
}

proof fn lemma_enabled_bounded(s: PpuView, m: Mmio, b: int)
    requires
        s.within(b),
        m.master_cc < b,
        roomy(b),
    ensures
        ({
            let (t, n) = s.enter_lcd_enabled(m);
            &&& t.clocked(n, b + 2)
            &&& t.fits()
            &&& !t.disabled
            &&& t.sched_sound()
            &&& n.master_cc == m.master_cc
        }),
{
    let s1 = s.sync_lcdc(m);
    lemma_visible_keeps_queue(s, m.lcdc, m.cgb_features, m.double_speed);
    lemma_visible_keeps_start(s, m.lcdc, m.cgb_features, m.double_speed);
    reveal(PpuView::set_lcdc_visible);
    let s2 = s.enabled_line(m);
    assert(s2.within(b) && s2.x == 0 && s2.line.sprites.len() == 0) by {
        reveal(PpuView::reset_lcd_pipeline);
    }
    reveal(PpuView::enabled_clock);
}

proof fn lemma_disabled_bounded(s: PpuView, m: Mmio, b: int)
    requires
        s.within(b),
        s.scroll_due(),
        m.master_cc < b,
    ensures
        s.enter_lcd_disabled(m).0.clocked(s.enter_lcd_disabled(m).1, b),
{
    reveal(PpuView::off_vblank);
    reveal(PpuView::reset_lcd_pipeline);
}

/// Clock readings grow by a few dozen with a dot, however the machine is set,
/// and the bound on the next event stays one while the LCD is on.
pub proof fn law_a_dot_keeps_clocks(s: PpuView, m: Mmio, b: int)
    requires
        s.wf(),
        s.clocked(m, b),
        roomy(b),
        roomy(b + DRIFT),
    ensures
        s.step(m).0.clocked(s.step(m).1, b + DRIFT),
        s.disabled || s.sched_sound() ==> s.step(m).0.disabled || s.step(m).0.sched_sound(),
{
    reveal(PpuView::step);
    if s.disabled {
        if lcdc_has(m.lcdc, LCDCFlags::DisplayEnable) {
            lemma_enabled_bounded(s, m, b);
            let (t, n) = s.enter_lcd_enabled(m);
            lemma_dot_bounded(t, n, b + 2);
        }
    } else if !s.lcdc_has(LCDCFlags::DisplayEnable) {
        lemma_disabled_bounded(s, m, b);
    } else {
        lemma_dot_bounded(s, m, b);
    }
}

/// With the clocks bounded every register can be read and written.
pub proof fn law_clocked_is_in_range(s: PpuView, m: Mmio, b: int)
    requires
        s.clocked(m, b),
        b <= CLOCK_LIMIT,
    ensures
        s.in_range(),
        m.master_cc < CLOCK_LIMIT,
{
}

/// Time that passes between dots moves the bound on by as much.
pub proof fn law_waiting_keeps_clocks(s: PpuView, m: Mmio, b: int, cycles: u64)
    requires
        s.clocked(m, b),
        m.master_cc + cycles <= u64::MAX,
    ensures
        s.clocked(Mmio { master_cc: (m.master_cc + cycles) as u64, ..m }, b + cycles),
{
}

} // verus!
