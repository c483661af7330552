//! Mode 3: where the window starts, and what that does to the line's length.

use vstd::prelude::*;

use crate::arith::{clamp_i64, iclamp, imax, max_i64};
use crate::fetcher::{
    FetchPos, FetcherDebugEvent, FetcherDebugEventKind, FetcherLcdcState, FetcherView,
};
use crate::lcdc::{move_cc, moved_cc};
use crate::m3_length::WIN_M3_PENALTY;
use crate::mmio::Mmio;
use crate::objects::SPRITE_TILE_NONE;
use crate::regs::{CGB_PIXEL_TRANSFER_WARMUP, CLOCK_LIMIT, DMG_PIXEL_TRANSFER_WARMUP};
use crate::state::{Objs, Ppu, PpuView, Win, WxTrigger, M0, M3};

verus! {

/// Dots from the window's start column to the point of no return, for a window
/// that a WX write or the WY comparison brings onto the line.
pub const WXEN_COMMIT_DELAY: i64 = 3;
pub const WYTRIG_COMMIT_DELAY: i64 = 3;

/// The part of the fine scroll beyond three, twice.
pub open spec fn scroll_excess(scx: u8) -> int {
    2 * imax(0, (scx % 8) - 3)
}

impl PpuView {
    /// WX or the WY comparison has changed what the line's length was scheduled
    /// for, before the window started.
    pub open spec fn wx_rekey_due(self, m: Mmio, fast: bool) -> bool {
        !fast && self.m0.scheduled_mode0_dot is Some && !self.win.window_started_this_line
            && !self.win.win_wx_enable_resolved && (m.wx != self.m0.m3_scheduled_wx
            || self.window_will_start(m) != self.m0.m3_scheduled_win)
    }

    /// A line at single speed without objects, with its end known.
    pub open spec fn wx_rekey_clean(self, m: Mmio) -> bool {
        !m.double_speed && self.line.sprites.len() == 0 && self.m0.m0_time_master is Some
    }

    /// A window comes onto the line that was not scheduled: the dot by which
    /// it has to be there to count.
    pub open spec fn wx_rekey_commit(self, m: Mmio) -> Option<int> {
        let appears = !self.m0.m3_scheduled_win && self.window_will_start(m) && self.wx_rekey_clean(
            m,
        );
        if appears && self.m0.m3_scheduled_wx > 166 && m.wx <= 166 && m.cgb_features {
            Some(
                self.m3.m3_arm_dot + CGB_PIXEL_TRANSFER_WARMUP + 8 + self.m3.m3_arm_scx + imax(
                    0,
                    m.wx - 7,
                ) + (if m.wx <= 7 { scroll_excess(self.m3.m3_arm_scx) } else { 0 })
                    + WXEN_COMMIT_DELAY,
            )
        } else if appears && self.m0.m3_scheduled_wx == m.wx && m.wx <= 7 {
            Some(
                self.m3.m3_arm_dot + (self.m3.m3_arm_scx % 8) + m.wx + WYTRIG_COMMIT_DELAY + (
                if m.cgb_features { 0 } else { DMG_PIXEL_TRANSFER_WARMUP - 1 }),
            )
        } else {
            None
        }
    }

    /// A scheduled DMG window at the left edge goes away too late to matter.
    pub open spec fn wx_rekey_too_late(self, m: Mmio) -> bool {
        self.m0.m3_scheduled_win && self.m0.m3_scheduled_wx < 7 && !self.window_will_start(m)
            && !m.cgb_features && self.wx_rekey_clean(m) && self.ticks >= self.m3.m3_arm_dot
            + DMG_PIXEL_TRANSFER_WARMUP + 5 + (self.m3.m3_arm_scx % 8) + self.m0.m3_scheduled_wx
    }

    /// The schedule after a change of WX or of the WY comparison: a window that
    /// comes in time adds its dots; what cannot be told drops the schedule.
    #[verifier::opaque]
    pub open spec fn rekey_wx_change(self, m: Mmio, fast: bool) -> PpuView {
        if !self.wx_rekey_due(m, fast) {
            self
        } else {
            match self.wx_rekey_commit(m) {
                Some(commit) => PpuView {
                    win: Win { win_wx_enable_resolved: true, ..self.win },
                    m0: M0 {
                        m0_time_master: moved_cc(
                            self.m0.m0_time_master,
                            if self.ticks < commit { WIN_M3_PENALTY as int } else { 0 },
                        ),
                        ..self.m0
                    },
                    ..self
                },
                None => if self.wx_rekey_too_late(m) {
                    PpuView { win: Win { win_wx_penalty_resolved: true, ..self.win }, ..self }
                } else {
                    PpuView {
                        m0: M0 { scheduled_mode0_dot: None, m0_time_master: None, ..self.m0 },
                        ..self
                    }
                },
            }
        }
    }

    /// WX leaves the screen after the window has started, on a line without
    /// objects and with a known end.
    pub open spec fn wx_left_line(self, m: Mmio) -> bool {
        self.m0.m0_time_master is Some && self.win.window_started_this_line
            && self.line.sprites.len() == 0 && m.wx != self.m0.m3_scheduled_wx
            && !self.win.win_wx_penalty_resolved && m.wx > 166 && self.win.win_start_dot is Some
    }

    /// Clock cycles of the window's start that are given back; `None` where WX
    /// does not matter.
    pub open spec fn wx_refund(self, m: Mmio, fast: bool) -> Option<int> {
        let ws = self.win.win_start_dot->0;
        let fine = (self.m3.m3_arm_scx % 8) as int;
        let edge = self.m0.m3_scheduled_wx < 7;
        let full = WIN_M3_PENALTY as int;
        if !self.wx_left_line(m) {
            None
        } else if !m.cgb_features {
            if fast || edge {
                None
            } else {
                Some(if self.ticks < ws + fine + 2 { full } else { 0 })
            }
        } else if !m.double_speed {
            if edge {
                Some(0)
            } else {
                let drawn = self.ticks - ws + (if fine != 0 { 1int } else { 0 }) - scroll_excess(
                    self.m3.m3_arm_scx,
                );
                Some(full - iclamp(drawn, 0, full))
            }
        } else if edge {
            None
        } else {
            Some(if self.ticks < ws + fine + 1 { 2 * full } else { 0 })
        }
    }

    #[verifier::opaque]
    pub open spec fn resolve_wx_penalty(self, m: Mmio, fast: bool) -> PpuView {
        match self.wx_refund(m, fast) {
            Some(refund) => PpuView {
                win: Win { win_wx_penalty_resolved: true, ..self.win },
                m0: M0 {
                    m0_time_master: moved_cc(self.m0.m0_time_master, -refund),
                    ..self.m0
                },
                ..self
            },
            None => self,
        }
    }

    /// The window starts at column `x`, with tile `tile` of its row.
    #[verifier::opaque]
    pub open spec fn begin_window_draw(self, x: u8, tile: u8) -> PpuView {
        PpuView {
            win: Win {
                win_y_pos: self.win.win_y_pos.wrapping_add(1),
                window_started_this_line: true,
                win_draw_started: true,
                win_being_fetched: true,
                win_kill_tap_late: true,
                ..self.win
            },
            fetcher: self.fetcher.start_window(x, tile),
            ..self
        }
    }

    /// Where the fetcher is.
    pub open spec fn fetch_pos(self, pending_discard: u8) -> FetchPos {
        FetchPos {
            window_line: self.win.win_y_pos,
            display_x: self.x,
            pending_discard,
            scy: self.latch.scy_delayed,
            scx: self.latch.scx_delayed,
        }
    }

    /// The clock of the last tile number read.
    pub open spec fn note_tile_number(self, e: FetcherDebugEvent) -> PpuView {
        if e.kind == FetcherDebugEventKind::TileNumber {
            PpuView { m3: M3 { subcc_last_tn_cc: self.clk.abs_cc, ..self.m3 }, ..self }
        } else {
            self
        }
    }

    /// One fetcher step at once, as the window starts.
    #[verifier::opaque]
    pub open spec fn window_fetch(self, m: Mmio) -> PpuView {
        let (fetcher, ev) = self.fetcher.step(
            m,
            self.wg_apply(self.fetcher_lcdc_state()),
            self.fetch_pos(0),
        );
        let s = PpuView { fetcher, ..self };
        match ev {
            Some(e) => s.note_tile_number(e).record_fetch(e, m),
            None => s,
        }
    }

    /// The dot on which the window started, if this is it.
    pub open spec fn latch_start(self, dot: u128) -> Option<u128> {
        match self.win.win_start_dot {
            Some(d) => Some(d),
            None => Some(dot),
        }
    }

    /// The fine scroll that a window at the left edge meets.
    pub open spec fn edge_scx(self, m: Mmio) -> u8 {
        if self.m3.m3_discard_target >= 0 { self.m3.m3_discard_target as u8 } else { m.scx % 8 }
    }

    /// The window is due at the drawing position.
    pub open spec fn window_due(self, m: Mmio, win_en: bool) -> bool {
        let dmg = !m.cgb_features;
        self.window_y_active_with(m, win_en) && !self.fetcher.fetching_window && m.wx <= 166 && !(
        dmg && m.wx == 166) && if m.wx < 7 {
            self.x == 0 && !(dmg && m.wx >= 1)
        } else {
            self.x + 7 == m.wx || (dmg && self.x >= 1 && self.x + 6 == m.wx)
        }
    }

    /// The window starts on a DMG: its first fetch is made at once.
    pub open spec fn start_window_dmg(self, m: Mmio, tile: u8) -> PpuView {
        let s0 = self.begin_window_draw(self.x, tile);
        let s1 = PpuView { win: Win { win_first_tile_chop: 0, ..s0.win }, ..s0 };
        let s2 = PpuView { wg: s1.wg_set_anchor(0), ..s1 }.window_fetch(m);
        PpuView {
            win: Win {
                win_fetch_anchor: Some(self.ticks),
                win_start_dot: s2.latch_start(self.ticks),
                ..s2.win
            },
            objs: Objs { m3_sprite_prev_tile: SPRITE_TILE_NONE, ..s2.objs },
            ..s2
        }
    }

    /// The window starts on a CGB. At column 0 with fine scroll it starts with
    /// its second tile, fetched without the map.
    pub open spec fn start_window_cgb(self, m: Mmio) -> PpuView {
        let scx = self.edge_scx(m);
        let fine0 = m.wx == 0 && scx != 0;
        let s = self.begin_window_draw(self.x, if fine0 { 1 } else { 0 });
        PpuView {
            fetcher: if fine0 {
                FetcherView { wx0_glitch_fetches: 1, ..s.fetcher }
            } else {
                s.fetcher
            },
            m3: M3 {
                m3_pixels_discarded: if fine0 && scx == 7 { 1 } else { s.m3.m3_pixels_discarded },
                ..s.m3
            },
            win: Win {
                win_first_tile_chop: if fine0 {
                    0
                } else if m.wx < 7 {
                    (7 - m.wx) as u8
                } else {
                    s.win.win_first_tile_chop
                },
                win_start_dot: s.latch_start(self.ticks),
                ..s.win
            },
            objs: Objs { m3_sprite_prev_tile: SPRITE_TILE_NONE, ..s.objs },
            ..s
        }
    }

    /// Starts the window where it is due; `true` when that took the dot. On a
    /// DMG a start takes a dot to confirm, and one at column 0 with fine scroll
    /// waits a dot.
    #[verifier::opaque]
    pub open spec fn activate_window(self, m: Mmio, win_en: bool) -> (PpuView, bool) {
        let fine = self.edge_scx(m) != 0;
        if !self.window_due(m, win_en) {
            (self, false)
        } else if m.cgb_features {
            (self.start_window_cgb(m), true)
        } else if m.wx == 0 && !self.win.win_wx0_delayed && fine {
            (PpuView { win: Win { win_wx0_delayed: true, ..self.win }, ..self }, true)
        } else if m.wx >= 7 && self.x + 7 == m.wx {
            (
                PpuView {
                    win: Win {
                        dmg_wx_trigger_pending: Some(WxTrigger { dot: self.ticks, wx: m.wx }),
                        ..self.win
                    },
                    ..self
                },
                true,
            )
        } else {
            (self.start_window_dmg(m, if m.wx == 0 && fine { 1 } else { 0 }), true)
        }
    }

    /// A DMG window left of the screen's edge starts on its own dot, before the
    /// first pixel.
    pub open spec fn early_window_due(self, m: Mmio) -> bool {
        let target = self.m3.m3_discard_target;
        let base = self.m3.m3_arm_dot + 12 - (self.m3.m3_arm_dot % 2) + target;
        !m.cgb_features && self.x == 0 && !self.fetcher.fetching_window
            && !self.clk.first_line_after_enable && target >= 0 && self.window_y_active_with(
            m,
            self.win.we_dot_hist.d1 && self.win.we_dot_hist.d2,
        ) && (1 <= m.wx < 7 || (m.wx == 0 && target == 0)) && self.ticks - base == m.wx - 6
    }

    #[verifier::opaque]
    pub open spec fn early_window(self, m: Mmio) -> (PpuView, bool) {
        if !self.early_window_due(m) {
            (self, false)
        } else {
            let s0 = self.begin_window_draw(0, 0);
            let s1 = PpuView {
                objs: Objs {
                    m3_sprite_prev_tile: SPRITE_TILE_NONE,
                    pixel_transfer_warmup: 0,
                    ..s0.objs
                },
                win: Win {
                    win_start_dot: s0.latch_start(self.ticks),
                    win_first_tile_chop: (7 - m.wx) as u8,
                    ..s0.win
                },
                m3: M3 { m3_pixels_discarded: s0.m3.m3_discard_target as u8, ..s0.m3 },
                ..s0
            };
            let s2 = PpuView { wg: s1.wg_set_anchor(0), ..s1 }.window_fetch(m);
            (
                PpuView {
                    win: Win {
                        win_fetch_anchor: Some(dot_before(self.ticks)),
                        ..s2.win
                    },
                    ..s2
                },
                true,
            )
        }
    }

    /// The start that waited for this dot is confirmed.
    pub open spec fn deferred_window_due(self, m: Mmio) -> bool {
        match self.win.dmg_wx_trigger_pending {
            Some(t) => self.ticks == t.dot.wrapping_add(1) && m.wx == t.wx && self.x + 7 == t.wx
                && !self.fetcher.fetching_window,
            None => false,
        }
    }

    #[verifier::opaque]
    pub open spec fn deferred_window(self, m: Mmio) -> (PpuView, bool) {
        let s = PpuView { win: Win { dmg_wx_trigger_pending: None, ..self.win }, ..self };
        if m.cgb_features {
            (self, false)
        } else if !self.deferred_window_due(m) {
            (s, false)
        } else {
            let s0 = s.begin_window_draw(self.x, 0);
            let s1 = PpuView { win: Win { win_first_tile_chop: 0, ..s0.win }, ..s0 };
            let s2 = PpuView { wg: s1.wg_set_anchor(1), ..s1 }.window_fetch(m);
            (
                PpuView {
                    win: Win {
                        win_fetch_anchor: Some(dot_before(self.ticks)),
                        win_start_dot: s2.latch_start(dot_before(self.ticks)),
                        ..s2.win
                    },
                    objs: Objs { m3_sprite_prev_tile: SPRITE_TILE_NONE, ..s2.objs },
                    ..s2
                },
                true,
            )
        }
    }

    /// A DMG window that was switched off gives way to the background at its
    /// next tile.
    #[verifier::opaque]
    pub open spec fn kill_window(self, m: Mmio, cadence_even: bool) -> PpuView {
        let tap = if self.win.win_kill_tap_late {
            self.win.we_dot_hist.d3
        } else {
            self.win.we_dot_hist.d2
        };
        if cadence_even && !m.cgb_features && self.fetcher.fetching_window
            && self.fetcher.state is TileNumber && !tap {
            PpuView {
                fetcher: self.fetcher.stop_window(0),
                win: Win {
                    window_started_this_line: false,
                    win_being_fetched: false,
                    ..self.win
                },
                ..self
            }
        } else {
            self
        }
    }
}

/// The dot before.
pub open spec fn dot_before(dot: u128) -> u128 {
    dot.wrapping_sub(1)
}

impl Ppu {
    fn wx_rekey_due(&self, mmio: &Mmio, fast: bool) -> (r: bool)
        ensures
            r == self@.wx_rekey_due(*mmio, fast),
    {
        !fast && self.m0.scheduled_mode0_dot.is_some() && !self.win.window_started_this_line
            && !self.win.win_wx_enable_resolved && (mmio.wx != self.m0.m3_scheduled_wx
            || self.window_will_start(mmio) != self.m0.m3_scheduled_win)
    }

    fn wx_rekey_commit(&self, mmio: &Mmio) -> (r: Option<i64>)
        requires
            self@.in_range(),
        ensures
            r is Some <==> self@.wx_rekey_commit(*mmio) is Some,
            r matches Some(c) ==> self@.wx_rekey_commit(*mmio) == Some(c as int),
    {
        let wx: i64 = mmio.wx as i64;
        let scx: i64 = self.m3.m3_arm_scx as i64;
        let fine: i64 = (self.m3.m3_arm_scx % 8) as i64;
        let appears = !self.m0.m3_scheduled_win && self.window_will_start(mmio)
            && !mmio.is_double_speed_mode() && self.line.count() == 0
            && self.m0.m0_time_master.is_some();
        if appears && self.m0.m3_scheduled_wx > 166 && mmio.wx <= 166
            && mmio.is_cgb_features_enabled() {
            let win_fine: i64 = if wx <= 7 { 2 * max_i64(0, fine - 3) } else { 0 };
            Some(
                self.m3.m3_arm_dot as i64 + CGB_PIXEL_TRANSFER_WARMUP as i64 + 8 + scx + max_i64(
                    0,
                    wx - 7,
                ) + win_fine + WXEN_COMMIT_DELAY,
            )
        } else if appears && self.m0.m3_scheduled_wx == mmio.wx && mmio.wx <= 7 {
            let late: i64 = if mmio.is_cgb_features_enabled() {
                0
            } else {
                DMG_PIXEL_TRANSFER_WARMUP as i64 - 1
            };
            Some(self.m3.m3_arm_dot as i64 + fine + wx + WYTRIG_COMMIT_DELAY + late)
        } else {
            None
        }
    }

    fn wx_rekey_too_late(&self, mmio: &Mmio) -> (r: bool)
        requires
            self@.in_range(),
        ensures
            r == self@.wx_rekey_too_late(*mmio),
    {
        let commit: i64 = self.m3.m3_arm_dot as i64 + DMG_PIXEL_TRANSFER_WARMUP as i64 + 5 + (
        self.m3.m3_arm_scx % 8) as i64 + self.m0.m3_scheduled_wx as i64;
        self.m0.m3_scheduled_win && self.m0.m3_scheduled_wx < 7 && !self.window_will_start(mmio)
            && !mmio.is_cgb_features_enabled() && !mmio.is_double_speed_mode()
            && self.line.count() == 0 && self.m0.m0_time_master.is_some() && self.ticks as i64
            >= commit
    }

    pub(crate) fn mode3_rekey_wx_change(&mut self, mmio: &Mmio, fast: bool)
        requires
            old(self).wf(),
            old(self)@.in_range(),
            old(self)@.m0.below(4 * CLOCK_LIMIT),
        ensures
            final(self).wf(),
            final(self)@.in_range(),
            final(self)@ == old(self)@.rekey_wx_change(*mmio, fast),
            old(self)@.m0.advances_to(final(self)@.m0, 6),
    {
        reveal(PpuView::rekey_wx_change);
        if !self.wx_rekey_due(mmio, fast) {
            return;
        }
        match self.wx_rekey_commit(mmio) {
            Some(commit) => {
                let pen: i64 = if (self.ticks as i64) < commit { WIN_M3_PENALTY as i64 } else { 0 };
                self.m0 = M0 { m0_time_master: move_cc(self.m0.m0_time_master, pen), ..self.m0 };
                self.win = Win { win_wx_enable_resolved: true, ..self.win };
            },
            None => {
                if self.wx_rekey_too_late(mmio) {
                    self.win = Win { win_wx_penalty_resolved: true, ..self.win };
                } else {
                    self.m0 = M0 {
                        scheduled_mode0_dot: None,
                        m0_time_master: None,
                        ..self.m0
                    };
                }
            },
        }
    }

    fn wx_refund(&self, mmio: &Mmio, fast: bool) -> (r: Option<i64>)
        requires
            self@.in_range(),
        ensures
            r is Some <==> self@.wx_refund(*mmio, fast) is Some,
            r matches Some(c) ==> self@.wx_refund(*mmio, fast) == Some(c as int) && 0 <= c <= 12,
    {
        let ws: i64 = match self.win.win_start_dot {
            Some(d) => d as i64,
            None => {
                return None;
            },
        };
        if !(self.m0.m0_time_master.is_some() && self.win.window_started_this_line
            && self.line.count() == 0 && mmio.wx != self.m0.m3_scheduled_wx
            && !self.win.win_wx_penalty_resolved && mmio.wx > 166) {
            return None;
        }
        let fine: i64 = (self.m3.m3_arm_scx % 8) as i64;
        let edge = self.m0.m3_scheduled_wx < 7;
        let full: i64 = WIN_M3_PENALTY as i64;
        let now: i64 = self.ticks as i64;
        if !mmio.is_cgb_features_enabled() {
            if fast || edge {
                return None;
            }
            return Some(if now < ws + fine + 2 { full } else { 0 });
        }
        if !mmio.is_double_speed_mode() {
            if edge {
                return Some(0);
            }
            let scx_bias: i64 = if fine != 0 { 1 } else { 0 };
            let scx_late: i64 = 2 * max_i64(0, fine - 3);
            let drawn: i64 = now - ws + scx_bias - scx_late;
            return Some(full - clamp_i64(drawn, 0, full));
        }
        if edge {
            return None;
        }
        Some(if now < ws + fine + 1 { 2 * full } else { 0 })
    }

    pub(crate) fn resolve_wx_penalty(&mut self, mmio: &Mmio, fast: bool)
        requires
            old(self).wf(),
            old(self)@.in_range(),
        ensures
            final(self).wf(),
            final(self)@.in_range(),
            final(self)@ == old(self)@.resolve_wx_penalty(*mmio, fast),
            old(self)@.m0.advances_to(final(self)@.m0, 0),
    {
        reveal(PpuView::resolve_wx_penalty);
        if let Some(refund) = self.wx_refund(mmio, fast) {
            self.m0 = M0 { m0_time_master: move_cc(self.m0.m0_time_master, -refund), ..self.m0 };
            self.win = Win { win_wx_penalty_resolved: true, ..self.win };
        }
    }

    pub(crate) fn begin_window_draw(&mut self, x: u8)
        requires
            old(self).wf(),
            old(self)@.in_range(),
        ensures
            final(self).wf(),
            final(self)@.in_range(),
            final(self)@ == old(self)@.begin_window_draw(x, 0),
    {
        self.begin_window_draw_at_tile(x, 0);
    }

    pub(crate) fn begin_window_draw_at_tile(&mut self, x: u8, tile: u8)
        requires
            old(self).wf(),
            old(self)@.in_range(),
        ensures
            final(self).wf(),
            final(self)@.in_range(),
            final(self)@ == old(self)@.begin_window_draw(x, tile),
    {
        reveal(PpuView::begin_window_draw);
        self.win = Win {
            win_y_pos: self.win.win_y_pos.wrapping_add(1),
            window_started_this_line: true,
            win_draw_started: true,
            win_being_fetched: true,
            win_kill_tap_late: true,
            ..self.win
        };
        self.fetcher.start_window_at_tile(x, tile);
    }

    pub fn fetch_pos(&self, pending_discard: u8) -> (r: FetchPos)
        ensures
            r == self@.fetch_pos(pending_discard),
    {
        FetchPos {
            window_line: self.win.win_y_pos,
            display_x: self.x,
            pending_discard,
            scy: self.latch.scy_delayed,
            scx: self.latch.scx_delayed,
        }
    }

    pub(crate) fn note_tile_number(&mut self, e: &FetcherDebugEvent)
        requires
            old(self).wf(),
            old(self)@.in_range(),
        ensures
            final(self).wf(),
            final(self)@.in_range(),
            final(self)@ == old(self)@.note_tile_number(*e),
    {
        if e.kind == FetcherDebugEventKind::TileNumber {
            self.m3 = M3 { subcc_last_tn_cc: self.clk.abs_cc, ..self.m3 };
        }
    }

    fn window_fetch(&mut self, mmio: &Mmio)
        requires
            old(self).wf(),
            old(self)@.in_range(),
        ensures
            final(self).wf(),
            final(self)@.in_range(),
            final(self)@ == old(self)@.window_fetch(*mmio),
    {
        reveal(PpuView::window_fetch);
        let fls: FetcherLcdcState = self.wg_apply(self.fetcher_lcdc_state());
        let pos: FetchPos = self.fetch_pos(0);
        if let Some(event) = self.fetcher.step(mmio, fls, pos) {
            self.note_tile_number(&event);
            self.record_fetch_debug_event(event, mmio);
        }
    }

    fn latch_start(&self, dot: u128) -> (r: Option<u128>)
        ensures
            r == self@.latch_start(dot),
    {
        match self.win.win_start_dot {
            Some(d) => Some(d),
            None => Some(dot),
        }
    }

    fn edge_scx(&self, mmio: &Mmio) -> (r: u8)
        ensures
            r == self@.edge_scx(*mmio),
    {
        if self.m3.m3_discard_target >= 0 {
            self.m3.m3_discard_target as u8
        } else {
            mmio.scx % 8
        }
    }

    fn window_due(&self, mmio: &Mmio, win_en: bool) -> (r: bool)
        requires
            self@.wf(),
        ensures
            r == self@.window_due(*mmio, win_en),
    {
        let dmg = !mmio.is_cgb_features_enabled();
        let wx: u8 = mmio.wx;
        self.window_y_active_with(mmio, win_en) && !self.fetcher.is_fetching_window() && wx <= 166
            && !(dmg && wx == 166) && (if wx < 7 {
            self.x == 0 && !(dmg && wx >= 1)
        } else {
            self.x + 7 == wx || (dmg && self.x >= 1 && self.x + 6 == wx)
        })
    }

    fn start_window_dmg(&mut self, mmio: &Mmio, tile: u8)
        requires
            old(self).wf(),
            old(self)@.in_range(),
        ensures
            final(self).wf(),
            final(self)@ == old(self)@.start_window_dmg(*mmio, tile),
    {
        let dot: u128 = self.ticks;
        self.begin_window_draw_at_tile(self.x, tile);
        self.win = Win { win_first_tile_chop: 0, ..self.win };
        self.wg_set_anchor(0);
        self.window_fetch(mmio);
        let start: Option<u128> = self.latch_start(dot);
        self.win = Win { win_fetch_anchor: Some(dot), win_start_dot: start, ..self.win };
        self.objs = Objs { m3_sprite_prev_tile: SPRITE_TILE_NONE, ..self.objs };
    }

    fn start_window_cgb(&mut self, mmio: &Mmio)
        requires
            old(self).wf(),
            old(self)@.in_range(),
        ensures
            final(self).wf(),
            final(self)@ == old(self)@.start_window_cgb(*mmio),
    {
        let scx_fine: u8 = self.edge_scx(mmio);
        let fine0 = mmio.wx == 0 && scx_fine != 0;
        let dot: u128 = self.ticks;
        self.begin_window_draw_at_tile(self.x, if fine0 { 1 } else { 0 });
        if fine0 {
            self.fetcher.arm_wx0_glitch(1);
        }
        let discarded: u8 = if fine0 && scx_fine == 7 { 1 } else { self.m3.m3_pixels_discarded };
        let chop: u8 = if fine0 {
            0
        } else if mmio.wx < 7 {
            7 - mmio.wx
        } else {
            self.win.win_first_tile_chop
        };
        let start: Option<u128> = self.latch_start(dot);
        self.m3 = M3 { m3_pixels_discarded: discarded, ..self.m3 };
        self.win = Win { win_first_tile_chop: chop, win_start_dot: start, ..self.win };
        self.objs = Objs { m3_sprite_prev_tile: SPRITE_TILE_NONE, ..self.objs };
    }

    pub(crate) fn mode3_activate_window(&mut self, mmio: &Mmio, trigger_we: bool) -> (r: bool)
        requires
            old(self).wf(),
            old(self)@.in_range(),
        ensures
            final(self).wf(),
            (final(self)@, r) == old(self)@.activate_window(*mmio, trigger_we),
            !r ==> final(self)@ == old(self)@,
    {
        reveal(PpuView::activate_window);
        if !self.window_due(mmio, trigger_we) {
            return false;
        }
        if mmio.is_cgb_features_enabled() {
            self.start_window_cgb(mmio);
            return true;
        }
        let fine = self.edge_scx(mmio) != 0;
        if mmio.wx == 0 && !self.win.win_wx0_delayed && fine {
            self.win = Win { win_wx0_delayed: true, ..self.win };
        } else if mmio.wx >= 7 && self.x + 7 == mmio.wx {
            self.win = Win {
                dmg_wx_trigger_pending: Some(WxTrigger { dot: self.ticks, wx: mmio.wx }),
                ..self.win
            };
        } else {
            self.start_window_dmg(mmio, if mmio.wx == 0 && fine { 1 } else { 0 });
        }
        true
    }

    fn early_window_due(&self, mmio: &Mmio) -> (r: bool)
        requires
            self@.in_range(),
        ensures
            r == self@.early_window_due(*mmio),
    {
        let target: i64 = self.m3.m3_discard_target as i64;
        let base: i64 = self.m3.m3_arm_dot as i64 + 12 - (self.m3.m3_arm_dot % 2) as i64 + target;
        !mmio.is_cgb_features_enabled() && self.x == 0 && !self.fetcher.is_fetching_window()
            && !self.clk.first_line_after_enable && target >= 0 && self.window_y_active_with(
            mmio,
            self.win.we_dot_hist.d1 && self.win.we_dot_hist.d2,
        ) && ((1 <= mmio.wx && mmio.wx < 7) || (mmio.wx == 0 && target == 0))
            && self.ticks as i64 - base == mmio.wx as i64 - 6
    }

    pub(crate) fn early_window(&mut self, mmio: &Mmio) -> (r: bool)
        requires
            old(self).wf(),
            old(self)@.in_range(),
        ensures
            final(self).wf(),
            (final(self)@, r) == old(self)@.early_window(*mmio),
            !r ==> final(self)@ == old(self)@,
    {
        reveal(PpuView::early_window);
        if !self.early_window_due(mmio) {
            return false;
        }
        let dot: u128 = self.ticks;
        self.begin_window_draw(0);
        let start: Option<u128> = self.latch_start(dot);
        self.objs = Objs {
            m3_sprite_prev_tile: SPRITE_TILE_NONE,
            pixel_transfer_warmup: 0,
            ..self.objs
        };
        self.win = Win {
            win_start_dot: start,
            win_first_tile_chop: 7 - mmio.wx,
            ..self.win
        };
        self.m3 = M3 { m3_pixels_discarded: self.m3.m3_discard_target as u8, ..self.m3 };
        self.wg_set_anchor(0);
        self.window_fetch(mmio);
        self.win = Win { win_fetch_anchor: Some(dot.wrapping_sub(1)), ..self.win };
        true
    }

    fn deferred_window_due(&self, mmio: &Mmio) -> (r: bool)
        requires
            self@.wf(),
        ensures
            r == self@.deferred_window_due(*mmio),
    {
        match self.win.dmg_wx_trigger_pending {
            Some(t) => self.ticks == t.dot.wrapping_add(1) && mmio.wx == t.wx && self.x + 7
                == t.wx && !self.fetcher.is_fetching_window(),
            None => false,
        }
    }

    pub(crate) fn deferred_window(&mut self, mmio: &Mmio) -> (r: bool)
        requires
            old(self).wf(),
            old(self)@.in_range(),
        ensures
            final(self).wf(),
            (final(self)@, r) == old(self)@.deferred_window(*mmio),
            !r ==> final(self)@.in_range(),
            !r ==> final(self)@.x == old(self)@.x,
    {
        reveal(PpuView::deferred_window);
        if mmio.is_cgb_features_enabled() {
            return false;
        }
        let due = self.deferred_window_due(mmio);
        self.win = Win { dmg_wx_trigger_pending: None, ..self.win };
        if !due {
            return false;
        }
        let before: u128 = self.ticks.wrapping_sub(1);
        self.begin_window_draw(self.x);
        self.win = Win { win_first_tile_chop: 0, ..self.win };
        self.wg_set_anchor(1);
        self.window_fetch(mmio);
        let start: Option<u128> = self.latch_start(before);
        self.win = Win { win_fetch_anchor: Some(before), win_start_dot: start, ..self.win };
        self.objs = Objs { m3_sprite_prev_tile: SPRITE_TILE_NONE, ..self.objs };
        true
    }

    pub(crate) fn kill_window(&mut self, mmio: &Mmio, cadence_even: bool)
        requires
            old(self).wf(),
            old(self)@.in_range(),
        ensures
            final(self).wf(),
            final(self)@.in_range(),
            final(self)@ == old(self)@.kill_window(*mmio, cadence_even),
            final(self)@.x == old(self)@.x,
    {
        reveal(PpuView::kill_window);
        let tap = if self.win.win_kill_tap_late {
            self.win.we_dot_hist.d3
        } else {
            self.win.we_dot_hist.d2
        };
        if cadence_even && !mmio.is_cgb_features_enabled() && self.fetcher.is_fetching_window()
            && self.fetcher.fetch_state_is_tile_number() && !tap {
            self.fetcher.stop_window_with_extra(0);
            self.win = Win {
                window_started_this_line: false,
                win_being_fetched: false,
                ..self.win
            };
        }
    }
}

/// A window start moves the window on by exactly one of its lines.
pub proof fn law_window_start_takes_one_line(s: PpuView, m: Mmio)
    requires
        s.window_due(m, true),
        m.cgb_features,
    ensures
        ({
            let (t, took) = s.activate_window(m, true);
            took && t.win.win_y_pos == s.win.win_y_pos.wrapping_add(1)
                && t.win.window_started_this_line && t.fetcher.fetching_window
                && t.fetcher.fifo.len() == 0
        }),
{
    reveal(PpuView::activate_window);
    reveal(PpuView::begin_window_draw);
}

/// Where no window is due nothing happens.
pub proof fn law_no_window_no_change(s: PpuView, m: Mmio, win_en: bool)
    requires
        !s.window_due(m, win_en),
    ensures
        s.activate_window(m, win_en) == (s, false),
{
    reveal(PpuView::activate_window);
}

} // verus!
