//! LCDC writes: when they become visible, and what they change mid-line.

use vstd::prelude::*;

use crate::arith::{clamp_i64, floor_mod, iclamp, imax, max_i64};
use crate::fetcher::{FetcherLcdcState, FetcherView};
use crate::glitch::take_bits;
use crate::line_objs::sprite_xs;
use crate::m3_length::WIN_M3_PENALTY;
use crate::objects::{ascending, sprite_tile_walk_cost, walk_cost, walkable, Sprite};
use crate::regs::{
    at_least_zero, at_least_zero_spec, dots_to_cycles, lcdc_has, scaled, LCDCFlags,
    CGB_PIXEL_TRANSFER_WARMUP, CLOCK_LIMIT, DMG_PIXEL_TRANSFER_WARMUP,
};
use crate::state::{LcdcState, Ppu, PpuView, State, Win, M0};

verus! {

/// Clock cycles from an LCDC write until it is on the video memory bus.
pub const WG_TRANSITION_DELAY: u64 = 4;
/// Dots from a write until objects are on or off, on DMG and on CGB hardware.
pub const OBJEN_APPLY_DOTS: u128 = 2;
pub const OBJEN_APPLY_DOTS_CGB: u128 = 3;
/// Dots from a write until objects have their new height.
pub const OBJSIZE_APPLY_DOTS: u128 = 1;

/// A flag is set in one of two LCDC values and clear in the other.
#[verifier::allow_in_spec]
pub fn flag_differs(a: u8, b: u8, f: LCDCFlags) -> bool
    returns
        lcdc_has(a, f) != lcdc_has(b, f),
{
    lcdc_has(a, f) != lcdc_has(b, f)
}

/// Whether either object bit differs.
#[verifier::allow_in_spec]
pub fn obj_bits_differ(a: u8, b: u8) -> bool
    returns
        flag_differs(a, b, LCDCFlags::SpriteDisplayEnable) || flag_differs(
            a,
            b,
            LCDCFlags::SpriteSize,
        ),
{
    flag_differs(a, b, LCDCFlags::SpriteDisplayEnable) || flag_differs(a, b, LCDCFlags::SpriteSize)
}

/// Whether a map or tile data select bit differs.
#[verifier::allow_in_spec]
pub fn select_bits_differ(a: u8, b: u8) -> bool
    returns
        flag_differs(a, b, LCDCFlags::WindowTileMapDisplaySelect) || flag_differs(
            a,
            b,
            LCDCFlags::BGWindowTileDataSelect,
        ) || flag_differs(a, b, LCDCFlags::BGTileMapDisplaySelect),
{
    flag_differs(a, b, LCDCFlags::WindowTileMapDisplaySelect) || flag_differs(
        a,
        b,
        LCDCFlags::BGWindowTileDataSelect,
    ) || flag_differs(a, b, LCDCFlags::BGTileMapDisplaySelect)
}

/// A scheduled time moved by `delta`, not before the start.
pub open spec fn moved_cc(t: Option<u64>, delta: int) -> Option<u64> {
    match t {
        Some(v) => Some(at_least_zero_spec(v + delta) as u64),
        None => None,
    }
}

/// A scheduled dot moved by `delta`, not before the start.
pub open spec fn moved_dot(t: Option<u128>, delta: int) -> Option<u128> {
    match t {
        Some(v) => Some(at_least_zero_spec(v + delta) as u128),
        None => None,
    }
}

pub fn move_cc(t: Option<u64>, delta: i64) -> (r: Option<u64>)
    requires
        t matches Some(v) ==> v < 8 * CLOCK_LIMIT,
        -(CLOCK_LIMIT as int) < delta < CLOCK_LIMIT,
    ensures
        r == moved_cc(t, delta as int),
{
    match t {
        Some(v) => Some(at_least_zero(v as i64 + delta)),
        None => None,
    }
}

pub fn move_dot(t: Option<u128>, delta: i64) -> (r: Option<u128>)
    requires
        t matches Some(v) ==> v < 8 * CLOCK_LIMIT,
        -(CLOCK_LIMIT as int) < delta < CLOCK_LIMIT,
    ensures
        r == moved_dot(t, delta as int),
{
    match t {
        Some(v) => Some(at_least_zero(v as i64 + delta) as u128),
        None => None,
    }
}

/// The object being fetched has `single` dots to go less those since its fetch
/// began.
pub open spec fn in_progress_rest(single: int, ticks: u128, commit: u128) -> int {
    imax(0, single - ((if ticks < commit { 0 } else { ticks - commit }) + 1))
}

impl PpuView {
    /// Dots that the objects still to come add to the line. With
    /// `use_fetch_index` those not fetched yet and the rest of the present
    /// fetch, otherwise those right of the drawing position.
    #[verifier::opaque]
    pub open spec fn remaining_sprite_cost(
        self,
        scx: int,
        obj_enabled: bool,
        use_fetch_index: bool,
    ) -> int {
        let next = self.objs.next_sprite_fetch_index as int;
        if !obj_enabled {
            0
        } else if use_fetch_index {
            walk_cost(
                ascending(sprite_xs(self.line.sprites.skip(next))),
                scx,
                167,
                167,
                true,
            ) + if next > 0 {
                in_progress_rest(
                    walk_cost(
                        seq![self.line.sprites[next - 1].x as i32],
                        scx,
                        167,
                        167,
                        true,
                    ),
                    self.ticks,
                    self.objs.m3_last_sprite_commit_tick,
                )
            } else {
                0
            }
        } else {
            let cutoff = (self.x + 8) as i32;
            walk_cost(
                ascending(
                    sprite_xs(self.line.sprites.filter(|s: Sprite| s.x as i32 > cutoff)),
                ),
                scx,
                167,
                167,
                true,
            )
        }
    }

    /// LCDC as the fetcher finds it: a tile-data-select write shows on its own
    /// commit clock.
    pub open spec fn fetcher_lcdc_state(self) -> FetcherLcdcState {
        FetcherLcdcState {
            lcdc: match self.lcdc.lcdc_b4_exact {
                Some(c) => take_bits(
                    self.lcdc.reg,
                    if self.clk.abs_cc < c.cc { c.old_val } else { c.new_val },
                    LCDCFlags::BGWindowTileDataSelect.mask(),
                ),
                None => self.lcdc.reg,
            },
            cgb_tile_index_is_tile_data: self.journal.tidxtd_at(
                self.clk.abs_cc,
                self.fetcher.substep(),
            ),
            or_lcdc: None,
            scy_bus: None,
            scx_bus: None,
        }
    }

    /// Window tiles that still come after the window is switched off on CGB.
    #[verifier::opaque]
    pub open spec fn cgb_weoff_extra_tiles(self) -> u8 {
        match self.wg.bg_anchor_dot {
            None => if (self.x + 2 - 2 * self.fetcher.window_x_start) % 8 == 0 { 0u8 } else { 1 },
            Some(anchor) => {
                let last_col = self.ticks - anchor - 7;
                let cur_col = self.x + self.fetcher.fifo.len();
                let left = if cur_col > last_col {
                    0u8
                } else {
                    ((last_col - cur_col) / 8 + 1) as u8
                };
                if self.fetcher.substep() != 0 && left > 0 { (left - 1) as u8 } else { left }
            },
        }
    }

    /// Fine-scroll part of the dots before a window at or left of the screen's
    /// edge has drawn.
    pub open spec fn win_edge_fine(self) -> int {
        if self.m0.m3_scheduled_wx <= 7 { (self.m3.m3_arm_scx % 8) as int } else { 0 }
    }

    /// Dots of the window's start that were not used when it was switched off.
    pub open spec fn window_refund(self, started: u128) -> int {
        WIN_M3_PENALTY - iclamp(
            self.ticks - started - self.win_edge_fine(),
            0,
            WIN_M3_PENALTY as int,
        )
    }

    /// The column at which the scheduled window starts, on the screen.
    pub open spec fn scheduled_start_x(self) -> int {
        imax(0, self.m0.m3_scheduled_wx - 7)
    }

    /// The window, switched on now, still starts on this line.
    pub open spec fn enabled_window_starts(self, cgb: bool) -> bool {
        let wx = self.m0.m3_scheduled_wx;
        let warmup = if cgb { CGB_PIXEL_TRANSFER_WARMUP as int } else { DMG_PIXEL_TRANSFER_WARMUP as int };
        let fine = if wx <= 7 && self.m3.m3_arm_scx % 8 == 5 { 1int } else { 0 };
        let commit = self.m3.m3_arm_dot + warmup + 8 + self.m3.m3_arm_scx
            + self.scheduled_start_x() + fine - 1;
        (self.win.window_y_triggered || self.latch.wy2 == self.clk.internal_ly_val) && wx <= 166
            && (cgb || wx != 166) && self.ticks < commit
    }

    /// The window had started when it was switched off.
    pub open spec fn window_had_started(self, cgb: bool, ds: bool) -> bool {
        let cgb_commit = self.m3.m3_arm_dot + CGB_PIXEL_TRANSFER_WARMUP + 8 + (
        self.m3.m3_arm_scx % 8) + self.scheduled_start_x() - 1;
        self.win.window_started_this_line || (!cgb && (self.win.predicted_win_start_dot matches Some(
            p,
        ) && self.ticks >= p)) || (cgb && !ds && self.line.sprites.len() > 0
            && self.m0.m3_scheduled_win && self.ticks >= cgb_commit)
    }

    /// The end of mode 3 after objects were switched during it.
    #[verifier::opaque]
    pub open spec fn m0_after_obj_toggle(self, value: u8, cgb: bool, ds: bool) -> M0 {
        let scx = (self.m3.m3_arm_scx % 8) as int;
        let old_obj = self.lcdc_has(LCDCFlags::SpriteDisplayEnable) || cgb;
        let new_obj = lcdc_has(value, LCDCFlags::SpriteDisplayEnable) || cgb;
        let delta = self.remaining_sprite_cost(scx, new_obj, false) - self.remaining_sprite_cost(
            scx,
            old_obj,
            old_obj && !new_obj,
        );
        M0 {
            scheduled_mode0_dot: moved_dot(self.m0.scheduled_mode0_dot, delta),
            m0_time_master: moved_cc(self.m0.m0_time_master, dots_to_cycles(delta, ds)),
            ..self.m0
        }
    }

    /// The end of mode 3 after the window or the objects' height was switched
    /// during it; unknown where it has to be found by drawing.
    #[verifier::opaque]
    pub open spec fn m0_after_window_toggle(self, value: u8, cgb: bool, ds: bool) -> M0 {
        let spr_same = !obj_bits_differ(self.lcdc.reg, value);
        let was_on = self.lcdc_has(LCDCFlags::WindowDisplayEnable);
        let is_on = lcdc_has(value, LCDCFlags::WindowDisplayEnable);
        let bare = self.line.sprites.len() == 0;
        let start = match self.win.win_start_dot {
            Some(d) => Some(d),
            None => self.win.predicted_win_start_dot,
        };
        let time = if spr_same && !was_on && is_on && bare {
            if self.enabled_window_starts(cgb) {
                moved_cc(self.m0.m0_time_master, dots_to_cycles(WIN_M3_PENALTY as int, ds))
            } else {
                self.m0.m0_time_master
            }
        } else if !(spr_same && was_on && !is_on) || !self.window_had_started(cgb, ds) {
            None
        } else if !ds && (!bare || !cgb) {
            self.m0.m0_time_master
        } else if !ds {
            match start {
                Some(d) => moved_cc(self.m0.m0_time_master, -self.window_refund(d)),
                None => None,
            }
        } else if cgb && bare {
            match self.win.win_start_dot {
                Some(d) => moved_cc(self.m0.m0_time_master, -2 * self.window_refund(d)),
                None => None,
            }
        } else {
            None
        };
        M0 { scheduled_mode0_dot: None, m0_time_master: time, ..self.m0 }
    }

    /// Nothing is left of the line to draw.
    pub open spec fn at_line_end(self) -> bool {
        self.state != State::PixelTransfer || self.x >= 160
    }

    /// Window and fetcher after the window was switched.
    #[verifier::opaque]
    pub open spec fn after_window_switch(self, value: u8, cgb: bool) -> (Win, FetcherView) {
        let w = self.win;
        let f = self.fetcher;
        if !lcdc_has(value, LCDCFlags::WindowDisplayEnable) {
            if !((w.win_draw_started && !w.win_draw_start) || self.at_line_end()) {
                (w, f)
            } else if f.fetching_window && cgb {
                (
                    Win {
                        win_draw_started: false,
                        window_started_this_line: false,
                        win_weoff_deferred_tail: true,
                        ..w
                    },
                    f.stop_window(self.cgb_weoff_extra_tiles()),
                )
            } else if f.fetching_window && self.at_line_end() {
                (
                    Win { win_draw_started: false, window_started_this_line: false, ..w },
                    f.stop_window(0),
                )
            } else {
                (Win { win_draw_started: false, ..w }, f)
            }
        } else if w.win_draw_start && !w.win_draw_started {
            (Win { win_draw_started: true, win_y_pos: w.win_y_pos.wrapping_add(1), ..w }, f)
        } else {
            (w, f)
        }
    }

    /// The glitch that a falling tile-data-select bit arms on CGB.
    pub open spec fn tile_index_is_data(self, value: u8, cgb: bool) -> bool {
        cgb && self.lcdc_has(LCDCFlags::BGWindowTileDataSelect) && !lcdc_has(
            value,
            LCDCFlags::BGWindowTileDataSelect,
        ) && self.lcdc_has(LCDCFlags::DisplayEnable) && lcdc_has(value, LCDCFlags::DisplayEnable)
    }

    /// Only the objects' enable bit changes, while drawing, with the end of
    /// mode 3 known.
    pub open spec fn is_obj_toggle(self, value: u8) -> bool {
        self.state == State::PixelTransfer && self.m0.scheduled_mode0_dot is Some && !flag_differs(
            self.lcdc.reg,
            value,
            LCDCFlags::WindowDisplayEnable,
        ) && !flag_differs(self.lcdc.reg, value, LCDCFlags::SpriteSize) && flag_differs(
            self.lcdc.reg,
            value,
            LCDCFlags::SpriteDisplayEnable,
        )
    }

    /// The register with `value` in it.
    pub open spec fn lcdc_with(self, value: u8, cgb: bool) -> LcdcState {
        LcdcState {
            reg: value,
            cgb_tile_index_is_tile_data: self.tile_index_is_data(value, cgb),
            ..self.lcdc
        }
    }

    /// The end of mode 3 after `value` became visible.
    pub open spec fn m0_after(self, value: u8, cgb: bool, ds: bool) -> M0 {
        if self.state == State::PixelTransfer && (flag_differs(
            self.lcdc.reg,
            value,
            LCDCFlags::WindowDisplayEnable,
        ) || obj_bits_differ(self.lcdc.reg, value)) {
            self.m0_after_window_toggle(value, cgb, ds)
        } else {
            self.m0
        }
    }

    /// Window and fetcher after `value` became visible.
    pub open spec fn window_after(self, value: u8, cgb: bool) -> (Win, FetcherView) {
        if self.lcdc_has(LCDCFlags::DisplayEnable) && flag_differs(
            self.lcdc.reg,
            value,
            LCDCFlags::WindowDisplayEnable,
        ) {
            self.after_window_switch(value, cgb)
        } else {
            (self.win, self.fetcher)
        }
    }

    /// `value` becomes visible. Switching nothing but the objects moves the end
    /// of mode 3; any other write also compares WY and LY again.
    #[verifier::opaque]
    pub open spec fn set_lcdc_visible(self, value: u8, cgb: bool, ds: bool) -> PpuView {
        let lcdc = self.lcdc_with(value, cgb);
        if self.is_obj_toggle(value) {
            PpuView { m0: self.m0_after_obj_toggle(value, cgb, ds), lcdc, ..self }
        } else {
            let (win, fetcher) = self.window_after(value, cgb);
            let s = PpuView {
                m0: self.m0_after(value, cgb, ds),
                win,
                fetcher,
                lcdc,
                clk: self.clk.touched(),
                ..self
            };
            s.arm_wy_recheck(self.write_cc(ds))
        }
    }
}

impl Ppu {
    fn remaining_sprite_cost(&self, scx: i32, obj_enabled: bool, use_fetch_index: bool) -> (r: i32)
        requires
            self@.wf(),
            self@.in_range(),
            0 <= scx < 8,
        ensures
            r == self@.remaining_sprite_cost(scx as int, obj_enabled, use_fetch_index),
            0 <= r <= 200,
    {
        reveal(PpuView::remaining_sprite_cost);
        if !obj_enabled {
            return 0;
        }
        if use_fetch_index {
            let next: usize = self.objs.next_sprite_fetch_index;
            let tail: Vec<i32> = self.line.sorted_xs_from(next);
            let mut cost: i32 = sprite_tile_walk_cost(tail.as_slice(), scx, 167, 167, true);
            if next > 0 {
                let one: Vec<i32> = vec![self.line.sprite(next - 1).x as i32];
                assert(one@ =~= seq![self@.line.sprites[next - 1].x as i32]);
                assert(walkable(one@));
                let single: i32 = sprite_tile_walk_cost(one.as_slice(), scx, 167, 167, true);
                let commit: u128 = self.objs.m3_last_sprite_commit_tick;
                let elapsed: u128 = if self.ticks < commit { 0 } else { self.ticks - commit };
                if elapsed < single as u128 {
                    cost += single - (elapsed as i32 + 1);
                }
            }
            return cost;
        }
        let cutoff: i32 = self.x as i32 + 8;
        let xs: Vec<i32> = self.line.sorted_xs_beyond(cutoff);
        sprite_tile_walk_cost(xs.as_slice(), scx, 167, 167, true)
    }

    fn tidxtd_quirk_at_fetch(&self) -> (r: bool)
        ensures
            r == self@.journal.tidxtd_at(self@.clk.abs_cc, self@.fetcher.substep()),
    {
        self.journal.tidxtd_at(self.clk.abs_cc, self.fetcher.fetch_substep())
    }

    pub fn fetcher_lcdc_state(&self) -> (r: FetcherLcdcState)
        ensures
            r == self@.fetcher_lcdc_state(),
    {
        let quirk = self.tidxtd_quirk_at_fetch();
        let lcdc: u8 = match self.lcdc.lcdc_b4_exact {
            Some(c) => take_bits(
                self.lcdc.reg,
                if self.clk.abs_cc < c.cc { c.old_val } else { c.new_val },
                LCDCFlags::BGWindowTileDataSelect.mask(),
            ),
            None => self.lcdc.reg,
        };
        FetcherLcdcState {
            lcdc,
            cgb_tile_index_is_tile_data: quirk,
            or_lcdc: None,
            scy_bus: None,
            scx_bus: None,
        }
    }

    fn cgb_weoff_extra_tiles(&self) -> (r: u8)
        requires
            self.wf(),
            self@.in_range(),
        ensures
            r == self@.cgb_weoff_extra_tiles(),
    {
        reveal(PpuView::cgb_weoff_extra_tiles);
        let anchor: u128 = match self.wg.bg_anchor_dot {
            Some(a) => a,
            None => {
                let wxs: i64 = self.fetcher.window_x_start_dbg() as i64;
                let phase: u32 = floor_mod(self.x as i64 + 2 - 2 * wxs, 8);
                return if phase == 0 { 0 } else { 1 };
            },
        };
        let last_col: i64 = self.ticks as i64 - anchor as i64 - 7;
        let cur_col: i64 = self.x as i64 + self.fetcher.get_fifo_size() as i64;
        let left: u8 = if cur_col > last_col {
            0
        } else {
            ((last_col - cur_col) as u64 / 8 + 1) as u8
        };
        if self.fetcher.fetch_substep() != 0 && left > 0 { left - 1 } else { left }
    }

    fn window_refund(&self, started: u128) -> (r: i64)
        requires
            self@.in_range(),
            started < 2 * CLOCK_LIMIT,
        ensures
            r == self@.window_refund(started),
            0 <= r <= 6,
    {
        let win_fine: i64 = if self.m0.m3_scheduled_wx <= 7 {
            (self.m3.m3_arm_scx % 8) as i64
        } else {
            0
        };
        let drawn: i64 = (self.ticks as i64) - started as i64 - win_fine;
        WIN_M3_PENALTY as i64 - clamp_i64(drawn, 0, WIN_M3_PENALTY as i64)
    }

    fn enabled_window_starts(&self, cgb: bool) -> (r: bool)
        requires
            self@.in_range(),
        ensures
            r == self@.enabled_window_starts(cgb),
    {
        let wx: u8 = self.m0.m3_scheduled_wx;
        let x_at_start: i64 = max_i64(0, wx as i64 - 7);
        let warmup: i64 = if cgb {
            CGB_PIXEL_TRANSFER_WARMUP as i64
        } else {
            DMG_PIXEL_TRANSFER_WARMUP as i64
        };
        let win_fine: i64 = if wx <= 7 && self.m3.m3_arm_scx % 8 == 5 { 1 } else { 0 };
        let commit_dot: i64 = self.m3.m3_arm_dot as i64 + warmup + 8 + self.m3.m3_arm_scx as i64
            + x_at_start + win_fine - 1;
        let wy_ok = self.win.window_y_triggered || self.latch.wy2 == self.clk.internal_ly_val;
        wy_ok && wx <= 166 && (cgb || wx != 166) && (self.ticks as i64) < commit_dot
    }

    fn window_had_started(&self, cgb: bool, ds: bool) -> (r: bool)
        requires
            self@.in_range(),
        ensures
            r == self@.window_had_started(cgb, ds),
    {
        if self.win.window_started_this_line {
            return true;
        }
        if !cgb {
            if let Some(p) = self.win.predicted_win_start_dot {
                return self.ticks >= p;
            }
            return false;
        }
        if !ds && self.line.count() > 0 && self.m0.m3_scheduled_win {
            let x_at_start: i64 = max_i64(0, self.m0.m3_scheduled_wx as i64 - 7);
            let commit: i64 = self.m3.m3_arm_dot as i64 + CGB_PIXEL_TRANSFER_WARMUP as i64 + 8 + (
            self.m3.m3_arm_scx % 8) as i64 + x_at_start - 1;
            return self.ticks as i64 >= commit;
        }
        false
    }

    fn m0_after_obj_toggle(&self, value: u8, cgb: bool, ds: bool) -> (r: M0)
        requires
            self@.wf(),
            self@.in_range(),
        ensures
            r == self@.m0_after_obj_toggle(value, cgb, ds),
            self@.m0.advances_to(r, 400),
    {
        reveal(PpuView::m0_after_obj_toggle);
        let scx: i32 = (self.m3.m3_arm_scx % 8) as i32;
        let old_obj = self.lcdc_has(LCDCFlags::SpriteDisplayEnable) || cgb;
        let new_obj = lcdc_has(value, LCDCFlags::SpriteDisplayEnable) || cgb;
        let use_fetch_index = old_obj && !new_obj;
        let old_rem: i32 = self.remaining_sprite_cost(scx, old_obj, use_fetch_index);
        let new_rem: i32 = self.remaining_sprite_cost(scx, new_obj, false);
        let delta: i64 = (new_rem - old_rem) as i64;
        M0 {
            scheduled_mode0_dot: move_dot(self.m0.scheduled_mode0_dot, delta),
            m0_time_master: move_cc(self.m0.m0_time_master, scaled(delta, ds)),
            ..self.m0
        }
    }

    fn m0_after_window_toggle(&self, value: u8, cgb: bool, ds: bool) -> (r: M0)
        requires
            self@.wf(),
            self@.in_range(),
        ensures
            r == self@.m0_after_window_toggle(value, cgb, ds),
            self@.m0.advances_to(r, 400),
    {
        reveal(PpuView::m0_after_window_toggle);
        let spr_same = !obj_bits_differ(self.lcdc.reg, value);
        let was_on = self.lcdc_has(LCDCFlags::WindowDisplayEnable);
        let is_on = lcdc_has(value, LCDCFlags::WindowDisplayEnable);
        let bare = self.line.count() == 0;
        let time: Option<u64> = if spr_same && !was_on && is_on && bare {
            if self.enabled_window_starts(cgb) {
                move_cc(self.m0.m0_time_master, scaled(WIN_M3_PENALTY as i64, ds))
            } else {
                self.m0.m0_time_master
            }
        } else if !(spr_same && was_on && !is_on) || !self.window_had_started(cgb, ds) {
            None
        } else if !ds && (!bare || !cgb) {
            self.m0.m0_time_master
        } else if !ds {
            let start: Option<u128> = match self.win.win_start_dot {
                Some(d) => Some(d),
                None => self.win.predicted_win_start_dot,
            };
            match start {
                Some(d) => move_cc(self.m0.m0_time_master, -self.window_refund(d)),
                None => None,
            }
        } else if cgb && bare {
            match self.win.win_start_dot {
                Some(d) => move_cc(self.m0.m0_time_master, -2 * self.window_refund(d)),
                None => None,
            }
        } else {
            None
        };
        M0 { scheduled_mode0_dot: None, m0_time_master: time, ..self.m0 }
    }

    fn switch_window(&mut self, value: u8, cgb: bool)
        requires
            old(self).wf(),
            old(self)@.in_range(),
        ensures
            final(self).wf(),
            final(self)@ == ({
                let (win, fetcher) = old(self)@.after_window_switch(value, cgb);
                PpuView { win, fetcher, ..old(self)@ }
            }),
    {
        reveal(PpuView::after_window_switch);
        let w: Win = self.win;
        let at_line_end = self.state != State::PixelTransfer || self.x >= 160;
        if !lcdc_has(value, LCDCFlags::WindowDisplayEnable) {
            if !((w.win_draw_started && !w.win_draw_start) || at_line_end) {
                return;
            }
            if self.fetcher.is_fetching_window() && cgb {
                let extra: u8 = self.cgb_weoff_extra_tiles();
                self.fetcher.stop_window_with_extra(extra);
                self.win = Win {
                    win_draw_started: false,
                    window_started_this_line: false,
                    win_weoff_deferred_tail: true,
                    ..w
                };
            } else if self.fetcher.is_fetching_window() && at_line_end {
                self.fetcher.stop_window_with_extra(0);
                self.win = Win { win_draw_started: false, window_started_this_line: false, ..w };
            } else {
                self.win = Win { win_draw_started: false, ..w };
            }
        } else if w.win_draw_start && !w.win_draw_started {
            self.win = Win {
                win_draw_started: true,
                win_y_pos: w.win_y_pos.wrapping_add(1),
                ..w
            };
        }
    }

    fn is_obj_toggle(&self, value: u8) -> (r: bool)
        ensures
            r == self@.is_obj_toggle(value),
    {
        self.state == State::PixelTransfer && self.m0.scheduled_mode0_dot.is_some() && !flag_differs(
            self.lcdc.reg,
            value,
            LCDCFlags::WindowDisplayEnable,
        ) && !flag_differs(self.lcdc.reg, value, LCDCFlags::SpriteSize) && flag_differs(
            self.lcdc.reg,
            value,
            LCDCFlags::SpriteDisplayEnable,
        )
    }

    fn lcdc_with(&self, value: u8, cgb: bool) -> (r: LcdcState)
        ensures
            r == self@.lcdc_with(value, cgb),
    {
        let old_lcdc: u8 = self.lcdc.reg;
        let tile_index_is_data = cgb && lcdc_has(old_lcdc, LCDCFlags::BGWindowTileDataSelect)
            && !lcdc_has(value, LCDCFlags::BGWindowTileDataSelect) && lcdc_has(
            old_lcdc,
            LCDCFlags::DisplayEnable,
        ) && lcdc_has(value, LCDCFlags::DisplayEnable);
        LcdcState {
            reg: value,
            cgb_tile_index_is_tile_data: tile_index_is_data,
            ..self.lcdc
        }
    }

    fn m0_after(&self, value: u8, cgb: bool, ds: bool) -> (r: M0)
        requires
            self@.wf(),
            self@.in_range(),
        ensures
            r == self@.m0_after(value, cgb, ds),
            self@.m0.advances_to(r, 400),
    {
        if self.state == State::PixelTransfer && (flag_differs(
            self.lcdc.reg,
            value,
            LCDCFlags::WindowDisplayEnable,
        ) || obj_bits_differ(self.lcdc.reg, value)) {
            self.m0_after_window_toggle(value, cgb, ds)
        } else {
            self.m0
        }
    }

    fn switch_window_if_changed(&mut self, value: u8, cgb: bool)
        requires
            old(self).wf(),
            old(self)@.in_range(),
        ensures
            final(self).wf(),
            final(self)@ == ({
                let (win, fetcher) = old(self)@.window_after(value, cgb);
                PpuView { win, fetcher, ..old(self)@ }
            }),
    {
        if self.lcdc_has(LCDCFlags::DisplayEnable) && flag_differs(
            self.lcdc.reg,
            value,
            LCDCFlags::WindowDisplayEnable,
        ) {
            self.switch_window(value, cgb);
        }
    }

    pub(crate) fn set_lcdc_visible(&mut self, value: u8, cgb_features_enabled: bool, ds: bool)
        requires
            old(self).wf(),
            old(self)@.in_range(),
        ensures
            final(self).wf(),
            final(self)@ == old(self)@.set_lcdc_visible(value, cgb_features_enabled, ds),
            old(self)@.m0.advances_to(final(self)@.m0, 400),
    {
        reveal(PpuView::set_lcdc_visible);
        let lcdc: LcdcState = self.lcdc_with(value, cgb_features_enabled);
        if self.is_obj_toggle(value) {
            let m0: M0 = self.m0_after_obj_toggle(value, cgb_features_enabled, ds);
            self.m0 = m0;
            self.lcdc = lcdc;
            return;
        }
        let m0: M0 = self.m0_after(value, cgb_features_enabled, ds);
        let cc: u64 = self.write_cc(ds);
        self.switch_window_if_changed(value, cgb_features_enabled);
        self.m0 = m0;
        self.lcdc = lcdc;
        self.stat_sched_touched();
        self.arm_wy_recheck(cc);
    }
}

} // verus!
