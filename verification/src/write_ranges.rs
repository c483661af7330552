//! How far register writes move clock readings.

use vstd::prelude::*;

use crate::journal::PendingLcdcEvent;
use crate::lcdc_write::{lemma_visible_keeps_queue, lemma_visible_keeps_start, shown_by};
use crate::line_objs::sprite_xs;
use crate::mmio::Mmio;
use crate::objects::{ascending, law_walk_cost_bounds, walk_cost, Sprite};
use crate::ranges::{roomy, DRIFT};
use crate::regs::{lcdc_has, LCDCFlags};
use crate::stat_irq::lemma_events_stay;
use crate::state::PpuView;

verus! {

proof fn lemma_ascending_cost(sprites: Seq<Sprite>, scx: int)
    requires
        0 <= scx < 8,
    ensures
        0 <= walk_cost(ascending(sprite_xs(sprites)), scx, 167, 167, true) <= 11 * sprites.len(),
{
    let xs = ascending(sprite_xs(sprites));
    let leq = |a: i32, b: i32| a <= b;
    let base = sprite_xs(sprites);
    base.lemma_sort_by_ensures(leq);
    assert forall|i: int| 0 <= i < xs.len() implies 0 <= #[trigger] xs[i] by {
        assert(xs.contains(xs[i]));
        assert(base.contains(xs[i]));
    }
    vstd::seq_lib::to_multiset_len(base);
    vstd::seq_lib::to_multiset_len(xs);
    law_walk_cost_bounds(xs, scx, 167, 167, true);
}

proof fn lemma_remaining_cost(s: PpuView, scx: int, on: bool, by_index: bool)
    requires
        0 <= scx < 8,
        s.line.sprites.len() <= 10,
        s.objs.next_sprite_fetch_index <= s.line.sprites.len(),
    ensures
        0 <= s.remaining_sprite_cost(scx, on, by_index) <= 121,
{
    reveal(PpuView::remaining_sprite_cost);
    let next = s.objs.next_sprite_fetch_index as int;
    lemma_ascending_cost(s.line.sprites.skip(next), scx);
    let cutoff = (s.x + 8) as i32;
    let beyond = |o: Sprite| o.x as i32 > cutoff;
    s.line.sprites.lemma_filter_len(beyond);
    lemma_ascending_cost(s.line.sprites.filter(beyond), scx);
    if next > 0 {
        law_walk_cost_bounds(seq![s.line.sprites[next - 1].x as i32], scx, 167, 167, true);
    }
}

proof fn lemma_visible_bounded(s: PpuView, value: u8, cgb: bool, ds: bool, b: int)
    requires
        s.within(b),
        roomy(b),
        s.line.sprites.len() <= 10,
        s.objs.next_sprite_fetch_index <= s.line.sprites.len(),
    ensures
        ({
            let t = s.set_lcdc_visible(value, cgb, ds);
            &&& t.within(b + DRIFT)
            &&& t.line == s.line
            &&& t.objs == s.objs
            &&& t.x == s.x
            &&& t.m3 == s.m3
            &&& t.clk.p_now == s.clk.p_now
            &&& s.sched_sound() ==> t.sched_sound()
        }),
{
    let scx = (s.m3.m3_arm_scx % 8) as int;
    let old_obj = s.lcdc_has(LCDCFlags::SpriteDisplayEnable) || cgb;
    let new_obj = lcdc_has(value, LCDCFlags::SpriteDisplayEnable) || cgb;
    lemma_remaining_cost(s, scx, new_obj, false);
    lemma_remaining_cost(s, scx, old_obj, old_obj && !new_obj);
    lemma_visible_keeps_queue(s, value, cgb, ds);
    lemma_visible_keeps_start(s, value, cgb, ds);
    assert(s.m0_after_obj_toggle(value, cgb, ds).below(8 * (b + DRIFT))
        && s.m0_after_obj_toggle(value, cgb, ds).cgbp_block_start_cc == s.m0.cgbp_block_start_cc) by {
        reveal(PpuView::m0_after_obj_toggle);
    }
    assert(s.m0_after_window_toggle(value, cgb, ds).below(8 * (b + DRIFT))
        && s.m0_after_window_toggle(value, cgb, ds).cgbp_block_start_cc == s.m0.cgbp_block_start_cc) by {
        reveal(PpuView::m0_after_window_toggle);
    }
    reveal(PpuView::set_lcdc_visible);
}

proof fn lemma_event_bounded(s: PpuView, e: PendingLcdcEvent, m: Mmio, b: int)
    requires
        s.within(b),
        roomy(b),
        s.line.sprites.len() <= 10,
        s.objs.next_sprite_fetch_index <= s.line.sprites.len(),
    ensures
        written(s, s.apply_lcdc_event(e, m), b + DRIFT),
        s.apply_lcdc_event(e, m).objs == s.objs,
        s.apply_lcdc_event(e, m).line == s.line,
{
    let v = shown_by(e);
    lemma_visible_bounded(s, v, m.cgb_features, m.double_speed, b);
    lemma_visible_keeps_queue(s, v, m.cgb_features, m.double_speed);
    if s.sched_sound() {
        lemma_events_stay(
            s.set_lcdc_visible(v, m.cgb_features, m.double_speed),
            s.apply_lcdc_event(e, m),
        );
    }
}

/// `t` follows `s` by a register write: the drawing has not moved.
pub open spec fn written(s: PpuView, t: PpuView, b: int) -> bool {
    &&& t.within(b)
    &&& t.x == s.x
    &&& t.ticks == s.ticks
    &&& t.state == s.state
    &&& t.disabled == s.disabled
    &&& t.m3 == s.m3
    &&& t.clk.p_now == s.clk.p_now
    &&& s.sched_sound() ==> t.sched_sound()
}

proof fn lemma_events_bounded(s: PpuView, m: Mmio, i: int, b: int)
    requires
        0 <= i,
        s.within(b),
        roomy(b),
        roomy(b + DRIFT * (s.pending.len() - i)),
        s.line.sprites.len() <= 10,
        s.objs.next_sprite_fetch_index <= s.line.sprites.len(),
    ensures
        i <= s.pending.len() ==> written(
            s,
            s.lcdc_events_from(m, i),
            b + DRIFT * (s.pending.len() - i),
        ),
    decreases s.pending.len() - i,
{
    if i < s.pending.len() {
        let e = s.pending[i];
        let left = if e.cycles_remaining > 0 { (e.cycles_remaining - 1) as u32 } else { 0 };
        let rest = s.pending.remove(i);
        let n = s.pending.len() - i;
        assert(b + DRIFT * n == (b + DRIFT) + DRIFT * (n - 1)) by (nonlinear_arith);
        assert(DRIFT * (n - 1) >= 0) by (nonlinear_arith)
            requires
                n >= 1,
        ;
        if left == 0 {
            let s0 = PpuView { pending: rest, ..s };
            lemma_event_bounded(s0, e, m, b);
            let t = PpuView { pending: rest, ..s0.apply_lcdc_event(e, m) };
            lemma_events_bounded(t, m, i, b + DRIFT);
        } else {
            let queue = s.pending.update(i, PendingLcdcEvent { cycles_remaining: left, ..e });
            let t = PpuView { pending: queue, ..s };
            assert(b + DRIFT * (n - 1) <= b + DRIFT * n) by (nonlinear_arith);
            lemma_events_bounded(t, m, i + 1, b);
        }
    }
}

/// A cycle of the LCDC queue moves clock readings by a few dozen for each
/// write that is queued.
pub proof fn law_lcdc_events_keep_clocks(s: PpuView, m: Mmio, b: int)
    requires
        s.wf(),
        s.clocked(m, b),
        roomy(b),
        roomy(b + DRIFT * s.pending.len()),
    ensures
        s.step_lcdc_events(m).clocked(m, b + DRIFT * s.pending.len()),
        s.on_screen(m) ==> s.step_lcdc_events(m).on_screen(m),
        s.sched_sound() ==> s.step_lcdc_events(m).sched_sound(),
{
    lemma_events_bounded(s, m, 0, b);
    assert(DRIFT * s.pending.len() >= 0) by (nonlinear_arith);
}

/// Taking LCDC over from the bus moves them by a few dozen.
pub proof fn law_lcdc_sync_keeps_clocks(s: PpuView, m: Mmio, b: int)
    requires
        s.wf(),
        s.clocked(m, b),
        roomy(b),
    ensures
        s.sync_lcdc(m).clocked(m, b + DRIFT),
        s.on_screen(m) ==> s.sync_lcdc(m).on_screen(m),
        s.sched_sound() ==> s.sync_lcdc(m).sched_sound(),
{
    lemma_visible_bounded(s, m.lcdc, m.cgb_features, m.double_speed, b);
    lemma_visible_keeps_queue(s, m.lcdc, m.cgb_features, m.double_speed);
}

proof fn lemma_records_bounded(s: PpuView, value: u8, m: Mmio, b: int)
    requires
        s.within(b),
        s.line.sprites.len() <= 10,
        s.objs.next_sprite_fetch_index <= s.line.sprites.len(),
    ensures
        step_noted(s, s.lw_journal(value, m), b),
        step_noted(s, s.lw_suppress(value, m), b),
        step_noted(s, s.lw_bgen(value, m), b),
        step_noted(s, s.lw_objen(value, m), b),
        step_noted(s, s.lw_objsize(value, m), b),
        step_noted(s, s.lw_scan_size(value, m), b),
        step_noted(s, s.lw_tds(value, m), b),
        step_noted(s, s.lw_we(value, m), b),
{
    assert(step_noted(s, s.lw_journal(value, m), b)) by {
        reveal(PpuView::lw_journal);
    }
    assert(step_noted(s, s.lw_suppress(value, m), b)) by {
        reveal(PpuView::lw_suppress);
    }
    assert(step_noted(s, s.lw_bgen(value, m), b)) by {
        reveal(PpuView::lw_bgen);
    }
    assert(step_noted(s, s.lw_objen(value, m), b)) by {
        reveal(PpuView::lw_objen);
    }
    assert(step_noted(s, s.lw_objsize(value, m), b)) by {
        reveal(PpuView::lw_objsize);
    }
    assert(step_noted(s, s.lw_scan_size(value, m), b)) by {
        reveal(PpuView::lw_scan_size);
    }
    assert(step_noted(s, s.lw_tds(value, m), b)) by {
        reveal(PpuView::lw_tds);
    }
    assert(step_noted(s, s.lw_we(value, m), b)) by {
        reveal(PpuView::lw_we);
    }
}

spec fn step_noted(s: PpuView, t: PpuView, b: int) -> bool {
    &&& written(s, t, b)
    &&& t.line.sprites == s.line.sprites
    &&& t.objs.next_sprite_fetch_index == s.objs.next_sprite_fetch_index
}

proof fn lemma_noted_on(s: PpuView, t: PpuView, u: PpuView, b: int)
    requires
        step_noted(s, t, b),
        step_noted(t, u, b),
    ensures
        step_noted(s, u, b),
{
}

proof fn lemma_all_records_bounded(s: PpuView, value: u8, m: Mmio, b: int)
    requires
        s.within(b),
        s.line.sprites.len() <= 10,
        s.objs.next_sprite_fetch_index <= s.line.sprites.len(),
    ensures
        step_noted(s, s.lw_records(value, m), b),
{
    let s1 = s.lw_journal(value, m);
    assert(step_noted(s, s1, b)) by {
        lemma_records_bounded(s, value, m, b);
    }
    let s2 = s1.lw_suppress(value, m);
    assert(step_noted(s, s2, b)) by {
        lemma_records_bounded(s1, value, m, b);
        lemma_noted_on(s, s1, s2, b);
    }
    let s3 = s2.lw_bgen(value, m);
    assert(step_noted(s, s3, b)) by {
        lemma_records_bounded(s2, value, m, b);
        lemma_noted_on(s, s2, s3, b);
    }
    let s4 = s3.lw_objen(value, m);
    assert(step_noted(s, s4, b)) by {
        lemma_records_bounded(s3, value, m, b);
        lemma_noted_on(s, s3, s4, b);
    }
    let s5 = s4.lw_objsize(value, m);
    assert(step_noted(s, s5, b)) by {
        lemma_records_bounded(s4, value, m, b);
        lemma_noted_on(s, s4, s5, b);
    }
    let s6 = s5.lw_scan_size(value, m);
    assert(step_noted(s, s6, b)) by {
        lemma_records_bounded(s5, value, m, b);
        lemma_noted_on(s, s5, s6, b);
    }
}

proof fn lemma_queued_bounded(s: PpuView, value: u8, m: Mmio, b: int)
    requires
        s.within(b),
        s.line.sprites.len() <= 10,
        s.objs.next_sprite_fetch_index <= s.line.sprites.len(),
    ensures
        written(s, s.lw_tds(value, m).lw_we(value, m).lw_queue(value), b),
{
    let t = s.lw_tds(value, m);
    let u = t.lw_we(value, m);
    assert(step_noted(s, t, b)) by {
        lemma_records_bounded(s, value, m, b);
    }
    assert(step_noted(t, u, b)) by {
        lemma_records_bounded(t, value, m, b);
    }
}

proof fn lemma_shown_bounded(s: PpuView, value: u8, m: Mmio, b: int)
    requires
        s.within(b),
        roomy(b),
        s.line.sprites.len() <= 10,
        s.objs.next_sprite_fetch_index <= s.line.sprites.len(),
    ensures
        written(
            s,
            PpuView { pending: Seq::empty(), ..s }.set_lcdc_visible(
                value,
                m.cgb_features,
                m.double_speed,
            ),
            b + DRIFT,
        ),
{
    let empty = PpuView { pending: Seq::empty(), ..s };
    lemma_visible_bounded(empty, value, m.cgb_features, m.double_speed, b);
    lemma_visible_keeps_queue(empty, value, m.cgb_features, m.double_speed);
}

proof fn lemma_written_clocked(s: PpuView, t: PpuView, m: Mmio, b: int, c: int)
    requires
        s.clocked(m, b),
        written(s, t, c),
        b <= c,
    ensures
        t.clocked(m, c),
{
}

proof fn lemma_written_later(s: PpuView, t: PpuView, u: PpuView, b: int, c: int)
    requires
        written(s, t, b),
        written(t, u, c),
        b <= c,
    ensures
        written(s, u, c),
{
}

/// An LCDC write moves clock readings by a few dozen.
pub proof fn law_lcdc_write_keeps_clocks(s: PpuView, value: u8, m: Mmio, b: int)
    requires
        s.wf(),
        s.clocked(m, b),
        roomy(b),
    ensures
        s.handle_lcdc_write(value, m).clocked(m, b + DRIFT),
        s.on_screen(m) ==> s.handle_lcdc_write(value, m).on_screen(m),
        s.sched_sound() ==> s.handle_lcdc_write(value, m).sched_sound(),
{
    let t = s.lw_records(value, m);
    let u = s.handle_lcdc_write(value, m);
    assert(step_noted(s, t, b)) by {
        lemma_all_records_bounded(s, value, m, b);
    }
    if m.cgb_features && s.display_stays(value) {
        assert(written(t, u, b)) by {
            lemma_queued_bounded(t, value, m, b);
        }
        lemma_written_later(s, t, u, b, b);
        lemma_written_clocked(s, u, m, b, b);
        assert(u.clocked(m, b + DRIFT));
    } else {
        assert(written(t, u, b + DRIFT)) by {
            lemma_shown_bounded(t, value, m, b);
        }
        lemma_written_later(s, t, u, b, b + DRIFT);
        lemma_written_clocked(s, u, m, b, b + DRIFT);
    }
}

/// Writes to STAT, WY and SCY do not move clock readings.
pub proof fn law_register_writes_keep_clocks(s: PpuView, value: u8, m: Mmio, b: int)
    requires
        s.clocked(m, b),
    ensures
        s.on_stat_write(m).0.clocked(s.on_stat_write(m).1, b),
        s.on_wy_write(value, m).clocked(m, b),
        s.on_scy_write(value, m).clocked(m, b),
        s.on_screen(m) ==> s.on_stat_write(m).0.on_screen(s.on_stat_write(m).1)
            && s.on_wy_write(value, m).on_screen(m) && s.on_scy_write(value, m).on_screen(m),
        s.sched_sound() ==> s.on_stat_write(m).0.sched_sound() && s.on_wy_write(
            value,
            m,
        ).sched_sound() && s.on_scy_write(value, m).sched_sound(),
{
    if s.sched_sound() && s.disabled {
        lemma_events_stay(s, s.on_stat_write(m).0);
    }
}

/// Nor do palette writes.
pub proof fn law_palette_writes_keep_clocks(
    s: PpuView,
    second: bool,
    value: u8,
    m: Mmio,
    b: int,
)
    requires
        s.clocked(m, b),
    ensures
        s.on_bgp_write(value, m).clocked(m, b),
        s.on_obp_write(second, value).clocked(m, b),
        s.on_screen(m) ==> s.on_bgp_write(value, m).on_screen(m) && s.on_obp_write(
            second,
            value,
        ).on_screen(m),
        s.sched_sound() ==> s.on_bgp_write(value, m).sched_sound() && s.on_obp_write(
            second,
            value,
        ).sched_sound(),
{
    reveal(PpuView::on_bgp_write);
    reveal(PpuView::on_obp_write);
}

/// A write to SCX moves them by a few hundred.
pub proof fn law_scx_write_keeps_clocks(s: PpuView, value: u8, m: Mmio, b: int)
    requires
        s.clocked(m, b),
        roomy(b),
    ensures
        s.on_scx_write(value, m).clocked(m, b + 8 * DRIFT),
        s.on_screen(m) ==> s.on_scx_write(value, m).on_screen(m),
        s.on_scx_write(value, m).sched_sound(),
{
}

/// Taking up the frame after the boot ROM does not move them.
pub proof fn law_boot_state_keeps_clocks(s: PpuView, m: Mmio, dmg0: bool, b: int)
    requires
        s.clocked(m, b),
        roomy(b),
    ensures
        s.post_bios(m, dmg0).0.clocked(s.post_bios(m, dmg0).1, b),
        s.on_screen(m) ==> s.post_bios(m, dmg0).0.on_screen(s.post_bios(m, dmg0).1),
        s.sched_sound() ==> s.post_bios(m, dmg0).0.sched_sound(),
{
    reveal(PpuView::post_bios_clock);
}

/// A new picture unit can be clocked.
pub proof fn law_fresh_state_is_clocked(m: Mmio, b: int)
    requires
        m.master_cc < b,
        roomy(b),
    ensures
        PpuView::fresh().clocked(m, b),
        PpuView::fresh().on_screen(m),
        PpuView::fresh().sched_sound(),
{
}

} // verus!
