//! The scan, and what drawing starts from.

use vstd::prelude::*;

use crate::history_laws::{value_by_column, value_by_dot};
use crate::irq_laws::{in_cycles, law_stat_fields};
use crate::mmio::Mmio;
use crate::object_laws::{
    is_found, law_drawing_order, law_line_shows_the_first_ten, law_scan_step_adds_an_object,
    reaches, reaching,
};
use crate::objects::{law_sprites_sorted, SpriteFetchPhase};
use crate::state::{PpuView, State};
use crate::window_laws::{law_mode_3_ends, line_began};

verus! {

/// Every even dot the scan looks at the next object, with the height in force;
/// odd dots, a scan that is through, and the line after switching on look at
/// none.
pub proof fn law_scan_takes_objects_in_turn(s: PpuView, m: Mmio)
    requires
        s.line.slot_large.len() == 40,
        s.objs.objsize_apply_cc == 0xFFFF_FFFF_FFFF_FFFF,
    ensures
        ({
            let r = s.mode2_scan_slot(m);
            let i = s.objs.current_oam_sprite_index as int;
            let looks = !s.clk.first_line_after_enable && s.ticks % 2 == 0 && i < 40;
            let y = m.read((0xFE00 + 4 * i) as u16);
            &&& !looks ==> r == s
            &&& looks ==> r.objs.current_oam_sprite_index == i + 1 && r.line.slot_large[i]
                == s.objs.scan_obj_size_large && r.objs.scan_obj_size_large == (s.lcdc.reg & 0x04
                != 0) && r.line.sprites.len() == s.line.sprites.len() + (if s.line.sprites.len()
                < 10 && reaches(y, s.objs.scan_obj_size_large, m.ly) {
                1int
            } else {
                0
            })
        }),
{
    reveal(PpuView::mode2_scan_slot);
    let i = s.objs.current_oam_sprite_index as int;
    if 0 <= i < 40 {
        let seen = PpuView {
            line: crate::line_objs::LineObjsView {
                slot_large: s.line.slot_large.update(i, s.objs.scan_obj_size_large),
                ..s.line
            },
            ..s
        };
        law_scan_step_adds_an_object(seen, m, i);
    }
}

/// The line's objects are the first ten in OAM that reach it, by the positions in
/// the scan's copy and the height that each was scanned with.
pub proof fn law_line_takes_its_objects(s: PpuView, m: Mmio, i: int)
    requires
        0 <= i < 40,
    ensures
        ({
            let r = s.build_sprites(m);
            let buf = r.oam_reader.buf;
            is_found(r.line.sprites, i) == (reaches(buf[2 * i], s.line.slot_large[i], m.ly)
                && reaching(buf, s.line.slot_large, m.ly, i) < 10)
        }),
{
    reveal(crate::oam_scan::scan_result);
    let u = (crate::oam_reader::OamReaderView {
        large_src: s.lcdc.reg & 0x04 != 0,
        ..s.oam_reader
    }).update(s.clk.abs_cc, s.ly_counter(m), crate::mmio::oam_positions(m.oam@));
    law_line_shows_the_first_ten(m, u, s.line.slot_large, 40);
    assert(is_found(s.build_sprites(m).line.sprites, i) == is_found(
        crate::oam_scan::snapshot_sprites(m, u, s.line.slot_large, 40),
        i,
    ));
}

/// Drawing starts with the line's objects in order: by OAM in CGB mode, else by X
/// and then OAM. The line after switching on keeps what it had.
pub proof fn law_drawing_starts_with_sorted_objects(s: PpuView, m: Mmio, i: int, j: int)
    requires
        0 <= i < j < s.arm_sprites(m).line.sprites.len(),
    ensures
        ({
            let r = s.arm_sprites(m);
            let a = r.line.sprites[i];
            let b = r.line.sprites[j];
            let found = (PpuView {
                objs: crate::state::Objs { next_sprite_fetch_index: 0, ..s.objs },
                ..s
            }).build_sprites(m).line.sprites;
            &&& m.cgb_features ==> a.oam_index <= b.oam_index
            &&& !m.cgb_features ==> a.x < b.x || (a.x == b.x && a.oam_index <= b.oam_index)
            &&& s.clk.first_line_after_enable ==> r.line.sprites.to_multiset()
                == s.line.sprites.to_multiset() && r.oam_reader == s.oam_reader
            &&& !s.clk.first_line_after_enable ==> r.line.sprites.to_multiset()
                == found.to_multiset()
            &&& r.objs.next_sprite_fetch_index == 0
        }),
{
    let base = if s.clk.first_line_after_enable {
        s.line.sprites
    } else {
        (PpuView {
            objs: crate::state::Objs { next_sprite_fetch_index: 0, ..s.objs },
            ..s
        }).build_sprites(m).line.sprites
    };
    law_sprites_sorted(m.cgb_features, base);
    law_drawing_order(m.cgb_features, base, i, j);
}

/// On the line after switching on STAT shows mode 3 from dot 80 on, on CGB from
/// dot 82, 81 at double speed; on other lines the scan leaves STAT alone.
pub proof fn law_first_line_shows_mode_3(s: PpuView, m: Mmio)
    requires
        m.stat & 0x03 != 3,
    ensures
        ({
            let n = s.mode2_first_line(m).1;
            let dot = if !m.cgb_features {
                80int
            } else if m.double_speed {
                81
            } else {
                82
            };
            &&& s.clk.first_line_after_enable && s.ticks == dot ==> n.stat & 0x03 == 3 && n.stat
                & 0xFC == m.stat & 0xFC
            &&& !s.clk.first_line_after_enable || s.ticks != dot ==> n == m
        }),
{
    reveal(PpuView::mode2_first_line);
    law_stat_fields(m.stat, 3, false);
}

/// STAT shows the next line's scan on dot 453 already: at the end of lines 0 to
/// 142 and of the frame, and at no other time.
pub proof fn law_next_scan_shows_early(s: PpuView, m: Mmio)
    requires
        m.stat & 0x03 != 2,
    ensures
        ({
            let n = s.step_scheduled_stat_events(m);
            let drawn_next = (s.state == State::HBlank && m.ly <= 142) || (s.state == State::VBlank
                && (m.ly == 153 || s.clk.line_153_ly_zeroed));
            &&& !s.disabled && s.ticks == 453 && drawn_next ==> n.stat & 0x03 == 2 && n.stat & 0xFC
                == m.stat & 0xFC
            &&& s.disabled || s.ticks != 453 || !drawn_next ==> n == m
        }),
{
    law_stat_fields(m.stat, 2, false);
}

/// The line's records start with the registers as they are: one entry each, from
/// the first dot and column on. A BGP write that came during the scan counts from
/// there too on DMG hardware. Every object is still to be fetched.
pub proof fn law_line_records_start(s: PpuView, m: Mmio, at: int, k: int)
    requires
        0 <= at,
    ensures
        ({
            let r = s.arm_records(m);
            let early = !m.cgb_hardware && s.plot.bgp_mode2_pending is Some;
            let bgp = if early { s.plot.bgp_mode2_pending->0.value } else { s.plot.bgp_delayed };
            let compat = m.cgb_hardware && !m.cgb_features;
            &&& value_by_column(r.hist.bgen, at, true) == (s.lcdc.reg & 0x01 != 0)
            &&& value_by_dot(r.hist.objen, at, true) == (s.lcdc.reg & 0x02 != 0)
            &&& value_by_dot(r.hist.objsize, at, true) == (s.lcdc.reg & 0x04 != 0)
            &&& value_by_column(r.hist.bgp, at, 0) == bgp
            &&& value_by_dot(r.hist.bgp_dot, at, 0) == if compat { m.bgp } else {
                s.plot.bgp_delayed
            }
            &&& value_by_column(r.hist.obp0, at, 0) == s.plot.obp0_delayed
            &&& value_by_column(r.hist.obp1, at, 0) == s.plot.obp1_delayed
            &&& value_by_dot(r.hist.obp0_dot, at, 0) == s.plot.obp0_delayed
            &&& value_by_dot(r.hist.obp1_dot, at, 0) == s.plot.obp1_delayed
            &&& r.plot.bgp_delayed == bgp
            &&& r.plot.bgp_mode2_pending is None
            &&& r.plot.bgp_defer_countdown == 0
            &&& r.line.recs.len() == s.line.sprites.len()
            &&& 0 <= k < s.line.sprites.len() ==> r.line.recs[k].phase == SpriteFetchPhase::Pending
            &&& r.journal.wg_hist.len() == 0 && r.journal.bg_scx_hist.len() == 0
                && r.journal.bg_scy_hist.len() == 0
        }),
{
    reveal(PpuView::arm_records);
}

/// The fine scroll is still to be found as drawing starts, but for the line after
/// switching on, which takes it from SCX at once.
pub proof fn law_line_scroll_starts(s: PpuView, m: Mmio, was_first: bool)
    ensures
        ({
            let r = s.arm_scroll(m, was_first);
            &&& was_first ==> r.m3.m3_discard_target == m.scx % 8
            &&& !was_first ==> r.m3.m3_discard_target < 0
            &&& r.m3.m3_pixels_discarded == 0
            &&& r.m3.m3_arm_scx == m.scx % 8
            &&& r.m3.m3_arm_scx_full == m.scx
            &&& r.m3.m3_arm_dot == s.ticks
            &&& r.latch.scx_prev_f1 == m.scx
            &&& !r.clk.first_line_after_enable
        }),
{
    reveal(PpuView::arm_scroll);
}

/// An object at X 0 waits for the fine scroll too: five dots of it at most.
pub proof fn law_object_at_0_waits_for_the_scroll(s: PpuView, m: Mmio, cgb: bool)
    requires
        s.m3.first_line_scx_override is None,
    ensures
        ({
            let fine = (m.scx % 8) as int;
            let there = exists|i: int| 0 <= i < s.line.sprites.len() && (#[trigger] s.line.sprites[i]).x
                == 0;
            let fetched = s.lcdc.reg & 0x02 != 0 || cgb;
            &&& there && fetched ==> s.sprite0_scx_extra(m, cgb) == if fine <= 5 { fine } else { 5 }
            &&& !there || !fetched ==> s.sprite0_scx_extra(m, cgb) == 0
        }),
{
    if exists|i: int| 0 <= i < s.line.sprites.len() && (#[trigger] s.line.sprites[i]).x == 0 {
        let i = choose|i: int| 0 <= i < s.line.sprites.len() && (#[trigger] s.line.sprites[i]).x
            == 0;
        assert(0 <= s.line.sprites[i].x <= 0);
    } else if crate::line_objs::has_x_within(s.line.sprites, 0, 0) {
        let i = choose|i: int| 0 <= i < s.line.sprites.len() && 0 <= (
        #[trigger] s.line.sprites[i]).x <= 0;
        assert(s.line.sprites[i].x == 0);
    }
}

/// The line's end is scheduled by its length and that wait; the line after
/// switching on ends two dots later.
pub proof fn law_line_end_is_scheduled(s: PpuView, m: Mmio, was_first: bool)
    requires
        0 <= line_began(s, m.double_speed) < 0x4000_0000_0000_0000,
        0 <= s.m3_length(m, m.cgb_features) < 1000,
    ensures
        ({
            let r = s.arm_schedule(m, was_first).0;
            let depth = if m.cgb_features { 84int } else { 83 };
            let len = s.m3_length(m, m.cgb_features) + depth + if was_first {
                2
            } else {
                s.sprite0_scx_extra(m, m.cgb_features)
            };
            &&& r.m0.m0_time_master is Some
            &&& r.m0.m0_time_master->0 == line_began(s, m.double_speed) + in_cycles(
                len,
                m.double_speed,
            )
        }),
{
    reveal(PpuView::arm_schedule_line);
    law_mode_3_ends(s, m, s.m3_length(m, m.cgb_features), m.cgb_features, was_first);
}

/// A window that was taken up at the end of the line before goes on from the left
/// edge, on its next line and past the fine scroll's tile.
pub proof fn law_window_goes_on_below(s: PpuView, m: Mmio)
    requires
        !s.clk.first_line_after_enable,
    ensures
        ({
            let r = s.arm_window(m);
            let goes_on = s.win.win_draw_start && s.lcdc.reg & 0x20 != 0;
            &&& goes_on ==> r.win.win_y_pos == (s.win.win_y_pos + 1) % 256
                && r.win.window_started_this_line && r.fetcher.fetching_window
                && r.fetcher.window_x_start == 0 && r.fetcher.tile_index == 1
            &&& !goes_on ==> r.win.win_y_pos == s.win.win_y_pos && r.fetcher == s.fetcher
                && r.win.window_started_this_line == s.win.window_started_this_line
            &&& !r.win.win_draw_start
        }),
{
    reveal(PpuView::arm_window);
}

/// On CGB the DMA's tracker may sleep until 76 dots into the scan, and then until
/// eight cycles before the end of mode 3.
pub proof fn law_dma_tracker_sleeps(s: PpuView, m: Mmio)
    requires
        m.cgb_features,
        !s.clk.first_line_after_enable,
        m.master_cc < 0x4000_0000_0000_0000,
        0 <= line_began(s, m.double_speed) < 0x4000_0000_0000_0000,
        0 <= s.m3_length(m, true) < 1000,
    ensures
        s.enter_scheduled_mode2(m).1.hdma_tracker_sleep == m.master_cc + in_cycles(
            76,
            m.double_speed,
        ),
        ({
            let (r, n) = s.arm_schedule(m, false);
            r.m0.m0_time_master->0 >= 8 ==> n.hdma_tracker_sleep == r.m0.m0_time_master->0 - 8
        }),
{
    reveal(PpuView::enter_scheduled_mode2);
    reveal(PpuView::arm_schedule_line);
    law_line_end_is_scheduled(s, m, false);
}

/// A line starts with nothing found and nothing started; later dots leave what
/// has been found.
pub proof fn law_line_starts_empty(s: PpuView)
    ensures
        ({
            let r = s.mode2_line_start();
            &&& s.ticks == 0 ==> r.line.sprites.len() == 0 && r.objs.current_oam_sprite_index == 0
                && r.objs.next_sprite_fetch_index == 0 && !r.win.window_started_this_line
                && r.win.win_start_dot is None && r.objs.sprite_fetch_stall == 0
            &&& s.ticks != 0 ==> r == s
            &&& r.win.window_y_triggered == s.win.window_y_triggered
            &&& r.win.win_y_pos == s.win.win_y_pos
        }),
{
    reveal(PpuView::mode2_line_start);
}

} // verus!
