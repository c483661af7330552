//! Mode 3: one dot of it.

use vstd::prelude::*;

use crate::arith::imax;
use crate::fetcher::{FetcherLcdcState, FetcherView};
use crate::fifo::overlay;
use crate::lcdc::{move_cc, move_dot, moved_cc, moved_dot};
use crate::mmio::Mmio;
use crate::regs::{dots_to_cycles, scaled, LCDCFlags, CLOCK_LIMIT};
use crate::state::{BusGlitch, Objs, Ppu, PpuView, WeHist, Win, M0, M3};

verus! {

impl PpuView {
    /// The window bit moves one dot back in its history.
    #[verifier::opaque]
    pub open spec fn shift_we_hist(self) -> PpuView {
        PpuView {
            win: Win {
                we_dot_hist: WeHist {
                    d0: self.lcdc_has(LCDCFlags::WindowDisplayEnable),
                    d1: self.win.we_dot_hist.d0,
                    d2: self.win.we_dot_hist.d1,
                    d3: self.win.we_dot_hist.d2,
                    d4: self.win.we_dot_hist.d3,
                },
                ..self.win
            },
            ..self
        }
    }

    /// Dots since the scroll began to be counted.
    pub open spec fn scroll_xpos(self) -> u32 {
        imax(0, self.ticks - self.m3.m3_arm_dot - 1) as u32
    }

    /// The schedule moved to the scroll that was found.
    pub open spec fn m0_for_scroll(self, ds: bool) -> M0 {
        let delta = self.scroll_xpos() - self.m3.m3_arm_scx;
        if self.m0.scheduled_mode0_dot is Some {
            M0 {
                scheduled_mode0_dot: moved_dot(self.m0.scheduled_mode0_dot, delta),
                m0_time_master: moved_cc(self.m0.m0_time_master, dots_to_cycles(delta, ds)),
                ..self.m0
            }
        } else {
            self.m0
        }
    }

    /// The count of dots meets the fine scroll in force, or gives up.
    pub open spec fn scroll_found(self) -> bool {
        let xpos = self.scroll_xpos();
        xpos % 8 == self.scx_f1_pending_at_cc(self.clk.abs_cc) % 8 || xpos >= 80
    }

    /// The map column of the first tile, as the scroll had it when the tile was
    /// fetched and as it has it now.
    pub open spec fn scroll_cols(self, ds: bool) -> (int, int) {
        let back = dots_to_cycles((self.scroll_xpos() % 8) as int, ds) as u64;
        (
            imax(0, self.m3.m3_arm_scx_full as int) / 8 % 32,
            (self.scx_f1_pending_at_cc(self.clk.abs_cc.wrapping_sub(back)) / 8) as int % 32,
        )
    }

    /// Before the first pixel the fine scroll is found by counting dots until
    /// they meet it. On CGB, where SCX has moved on to another tile meanwhile,
    /// the first tile is read again, which takes the dot (`true`).
    #[verifier::opaque]
    pub open spec fn latch_scroll(self, m: Mmio) -> (PpuView, bool) {
        let ds = m.double_speed;
        let (arm_col, col) = self.scroll_cols(ds);
        if self.x != 0 || self.m3.m3_discard_target >= 0 || !self.scroll_found() {
            (self, false)
        } else if m.cgb_features && self.m3.m3_arm_scx_full >= 0 && col != arm_col {
            (
                PpuView {
                    fetcher: FetcherView {
                        fifo: overlay(
                            self.fetcher.fifo,
                            0,
                            self.bg_pixels_at_col(m, col, self.bg_row(m)),
                        ),
                        ..self.fetcher
                    },
                    m3: M3 {
                        m3_pixels_discarded: 0,
                        m3_discard_target: (self.scx_f1_pending_at_cc(self.clk.abs_cc) % 8) as i8,
                        ..self.m3
                    },
                    m0: self.m0_for_scroll(ds),
                    ..self
                },
                true,
            )
        } else {
            (
                PpuView {
                    m3: M3 { m3_discard_target: self.scroll_xpos() as i8, ..self.m3 },
                    m0: self.m0_for_scroll(ds),
                    ..self
                },
                false,
            )
        }
    }

    /// A dot of waiting for an object, if there is one to wait for.
    pub open spec fn use_stall(self) -> (PpuView, bool) {
        if self.objs.sprite_fetch_stall > 0 {
            (
                PpuView {
                    objs: Objs {
                        sprite_fetch_stall: (self.objs.sprite_fetch_stall - 1) as u8,
                        ..self.objs
                    },
                    ..self
                },
                true,
            )
        } else {
            (self, false)
        }
    }

    /// Drawing waits while an object is fetched; an object that starts here is
    /// fetched now. `true` when that took the dot.
    #[verifier::opaque]
    pub open spec fn stall_for_sprites(self, m: Mmio) -> (PpuView, bool) {
        if self.objs.sprite_fetch_stall > 0 {
            self.use_stall()
        } else if self.fetcher.fifo.len() != 0 && self.objs.pixel_transfer_warmup == 0 {
            let (s, cost) = self.sprite_fetch_step(m);
            PpuView {
                objs: Objs {
                    sprite_fetch_stall: match cost {
                        Some(c) => c,
                        None => 0,
                    },
                    ..s.objs
                },
                ..s
            }.use_stall()
        } else {
            (self, false)
        }
    }

    /// Whether the fetcher moves on this dot: every other one.
    pub open spec fn cadence_even(self, m: Mmio) -> bool {
        if m.cgb_features {
            self.objs.fetcher_cadence_tick % 2 == 0
        } else {
            match self.win.win_fetch_anchor {
                Some(a) => self.ticks.wrapping_sub(a) % 2 == 0,
                None => self.ticks % 2 == 0,
            }
        }
    }

    pub open spec fn count_cadence(self, m: Mmio) -> PpuView {
        if m.cgb_features {
            PpuView {
                objs: Objs {
                    fetcher_cadence_tick: self.objs.fetcher_cadence_tick.wrapping_add(1),
                    ..self.objs
                },
                ..self
            }
        } else {
            self
        }
    }

    /// The background's fetch grid starts with its first tile.
    #[verifier::opaque]
    pub open spec fn anchor_bg(self, m: Mmio, even: bool) -> PpuView {
        if even && self.wg.bg_anchor_cc is None && self.wg.bg_anchor_dot is None
            && !self.fetcher.fetching_window && self.fetcher.state is TileNumber
            && self.fetcher.tile_index == 0 {
            PpuView {
                wg: BusGlitch {
                    bg_anchor_dot: Some(self.ticks),
                    bg_anchor_cc: if m.cgb_features { None } else { Some(self.clk.abs_cc) },
                    ..self.wg
                },
                ..self
            }
        } else {
            self
        }
    }

    /// Fine-scroll pixels still to be dropped.
    pub open spec fn pending_discard(self) -> u8 {
        if self.x == 0 && self.m3.m3_discard_target > self.m3.m3_pixels_discarded {
            (self.m3.m3_discard_target - self.m3.m3_pixels_discarded) as u8
        } else {
            0
        }
    }

    /// The dot's fetch.
    pub open spec fn dot_fetch(self, m: Mmio) -> PpuView {
        let even = self.cadence_even(m);
        let s = self.count_cadence(m).kill_window(m, even).anchor_bg(m, even);
        s.fetch_step(
            m,
            even,
            s.bg_wg_apply(s.wg_apply(s.fetcher_lcdc_state())),
            s.pending_discard(),
        ).0
    }

    /// The queue has nothing to draw yet. `true` when that took the dot.
    pub open spec fn warm_up(self) -> (PpuView, bool) {
        if self.fetcher.fifo.len() == 0 {
            (self, true)
        } else if self.objs.pixel_transfer_warmup > 0 {
            (
                PpuView {
                    objs: Objs {
                        pixel_transfer_warmup: (self.objs.pixel_transfer_warmup - 1) as u8,
                        ..self.objs
                    },
                    ..self
                },
                true,
            )
        } else {
            (self, false)
        }
    }

    /// The window bit that decides a start on this dot: on DMG as it was a few
    /// dots ago, the fewer the more pixels are still to be dropped.
    pub open spec fn trigger_we(self, m: Mmio) -> bool {
        let h = self.win.we_dot_hist;
        if m.cgb_features {
            self.lcdc_has(LCDCFlags::WindowDisplayEnable)
        } else if self.pending_discard() == 0 {
            h.d1 && h.d2
        } else if self.pending_discard() == 1 {
            h.d0 && h.d1
        } else {
            h.d0
        }
    }

    /// A pixel is dropped. `true` when there was one.
    pub open spec fn drop_pixel(self) -> (PpuView, bool) {
        let (fetcher, p) = self.fetcher.pop();
        match p {
            Some(_) => (
                PpuView { fetcher, win: Win { win_being_fetched: false, ..self.win }, ..self },
                true,
            ),
            None => (self, false),
        }
    }

    /// Pixels of a window left of the screen are dropped. `true` when that took
    /// the dot.
    #[verifier::opaque]
    pub open spec fn chop_window(self) -> (PpuView, bool) {
        if self.x != 0 || self.win.win_first_tile_chop == 0 {
            (self, false)
        } else {
            let (s, dropped) = self.drop_pixel();
            if dropped {
                (
                    PpuView {
                        win: Win {
                            win_first_tile_chop: (self.win.win_first_tile_chop - 1) as u8,
                            ..s.win
                        },
                        ..s
                    },
                    true,
                )
            } else {
                (s, true)
            }
        }
    }

    pub open spec fn count_discard(self) -> PpuView {
        PpuView {
            m3: M3 { m3_pixels_discarded: (self.m3.m3_pixels_discarded + 1) as u8, ..self.m3 },
            ..self
        }
    }

    /// A window at the left edge that did not start with the line keeps its
    /// pixels.
    pub open spec fn win_x0_locked(self, m: Mmio) -> bool {
        self.fetcher.fetching_window && !self.win.win_draw_started_at_x0 && m.wx == 7
    }

    /// Fine-scroll pixels are dropped before the first column; a stray pixel
    /// stands in for one. `true` when that took the dot.
    #[verifier::opaque]
    pub open spec fn discard_scroll(self, m: Mmio) -> (PpuView, bool) {
        if self.x != 0 {
            (self, false)
        } else if self.m3.m3_discard_target < 0 {
            (self, true)
        } else if self.pending_discard() == 0 {
            (self, false)
        } else if self.win.we_glitch_discard_insert {
            (
                PpuView {
                    win: Win {
                        we_glitch_discard_insert: false,
                        win_being_fetched: false,
                        ..self.win
                    },
                    ..self
                }.count_discard(),
                true,
            )
        } else if self.win_x0_locked(m) {
            (self, false)
        } else {
            let (s, dropped) = self.drop_pixel();
            if dropped { (s.count_discard(), true) } else { (self, false) }
        }
    }

    /// A DMG window that draws its own start column again puts a stray pixel
    /// first.
    pub open spec fn window_restart_stray(self, m: Mmio) -> bool {
        !m.cgb_features && self.win.window_started_this_line && self.fetcher.fetching_window
            && !self.win.win_being_fetched && self.fetcher.fifo.len() == 8 && m.wx == self.x + 7
    }

    /// A tile starts in the current column.
    pub open spec fn at_tile_boundary(self) -> bool {
        self.win.we_glitch_tile_start_a == Some(self.x) || self.win.we_glitch_tile_start_b == Some(
            self.x,
        )
    }

    /// A window switched off on DMG hardware leaves a stray pixel where it
    /// would have started, if a tile starts there.
    pub open spec fn window_off_stray(self, m: Mmio) -> bool {
        !m.is_cgb() && self.win.window_y_triggered && !self.fetcher.fetching_window
            && !self.win.we_dot_hist.d2 && !self.win.we_insert_suppressed
            && self.at_tile_boundary() && m.wx == self.x + 7
    }

    /// A noted tile start once column `x` is drawn; a stray pixel moves it on.
    pub open spec fn tile_start_after(start: Option<u8>, x: u8, stray: bool) -> Option<u8> {
        match start {
            Some(fx) => if fx <= x {
                None
            } else if stray && fx < 255 {
                Some((fx + 1) as u8)
            } else {
                Some(fx)
            },
            None => None,
        }
    }

    #[verifier::opaque]
    pub open spec fn find_strays(self, m: Mmio) -> PpuView {
        let stray = self.window_off_stray(m);
        PpuView {
            win: Win {
                insert_bg_pixel: self.win.insert_bg_pixel || self.window_restart_stray(m) || stray,
                we_glitch_tile_start_a: PpuView::tile_start_after(
                    self.win.we_glitch_tile_start_a,
                    self.x,
                    stray,
                ),
                we_glitch_tile_start_b: PpuView::tile_start_after(
                    self.win.we_glitch_tile_start_b,
                    self.x,
                    stray,
                ),
                ..self.win
            },
            ..self
        }
    }

    /// The part of the dot before the fetch: the line's length and end, the
    /// fine scroll, objects, and a window left of the screen.
    pub open spec fn dot_before_fetch(self, m: Mmio, fast: bool) -> (PpuView, Mmio, bool) {
        let (s1, n, over) = self.shift_we_hist().rekey_wx_change(m, fast).resolve_wx_penalty(
            m,
            fast,
        ).reach_mode0(m);
        if over {
            (s1, n, true)
        } else {
            let (s2, took2) = s1.latch_scroll(n);
            if took2 {
                (s2, n, true)
            } else {
                let (s3, took3) = s2.stall_for_sprites(n);
                if took3 {
                    (s3, n, true)
                } else {
                    let (s4, took4) = s3.early_window(n);
                    (s4, n, took4)
                }
            }
        }
    }

    /// The queue fills and the window starts, where it is time. `true` when
    /// that took the dot.
    #[verifier::opaque]
    pub open spec fn dot_start_window(self, m: Mmio) -> (PpuView, bool) {
        let (s1, took1) = self.warm_up();
        if took1 {
            (s1, true)
        } else {
            let (s2, took2) = s1.deferred_window(m);
            if took2 { (s2, true) } else { s2.activate_window(m, s2.trigger_we(m)) }
        }
    }

    /// Pixels are dropped that lie left of the screen, or one is drawn.
    #[verifier::opaque]
    pub open spec fn dot_put_pixel(self, m: Mmio) -> (PpuView, Mmio) {
        let (s1, took1) = self.chop_window();
        if took1 {
            (s1, m)
        } else {
            let (s2, took2) = s1.discard_scroll(m);
            if took2 || s2.x >= 160 { (s2, m) } else { s2.find_strays(m).draw_and_end(m) }
        }
    }

    /// The part after the fetch: window starts, dropped pixels, and the pixel
    /// that is drawn.
    pub open spec fn dot_after_fetch(self, m: Mmio) -> (PpuView, Mmio) {
        let (s, took) = self.dot_start_window(m);
        if took { (s, m) } else { s.dot_put_pixel(m) }
    }

    /// One dot of mode 3. `fast` tells that nothing but drawing can happen.
    pub open spec fn step_mode3_dot(self, m: Mmio, fast: bool) -> (PpuView, Mmio) {
        let (s, n, over) = self.dot_before_fetch(m, fast);
        if over { (s, n) } else { s.dot_fetch(n).dot_after_fetch(n) }
    }
}

impl Ppu {
    fn shift_we_hist(&mut self)
        requires
            old(self).wf(),
            old(self)@.in_range(),
        ensures
            final(self).wf(),
            final(self)@.in_range(),
            final(self)@ == old(self)@.shift_we_hist(),
            final(self)@.m0 == old(self)@.m0,
    {
        reveal(PpuView::shift_we_hist);
        let h: WeHist = self.win.we_dot_hist;
        let now = self.lcdc_has(LCDCFlags::WindowDisplayEnable);
        self.win = Win {
            we_dot_hist: WeHist { d0: now, d1: h.d0, d2: h.d1, d3: h.d2, d4: h.d3 },
            ..self.win
        };
    }

    fn scroll_xpos(&self) -> (r: u32)
        requires
            self@.in_range(),
        ensures
            r == self@.scroll_xpos(),
    {
        let d: i64 = self.ticks as i64 - self.m3.m3_arm_dot as i64 - 1;
        (if d < 0 { 0 } else { d }) as u32
    }

    fn m0_for_scroll(&self, ds: bool) -> (r: M0)
        requires
            self@.in_range(),
            self@.m0.below(5 * CLOCK_LIMIT),
        ensures
            r == self@.m0_for_scroll(ds),
            r.below(8 * CLOCK_LIMIT),
            r.cgbp_block_start_cc == self@.m0.cgbp_block_start_cc,
    {
        if self.m0.scheduled_mode0_dot.is_none() {
            return self.m0;
        }
        let delta: i64 = self.scroll_xpos() as i64 - self.m3.m3_arm_scx as i64;
        M0 {
            scheduled_mode0_dot: move_dot(self.m0.scheduled_mode0_dot, delta),
            m0_time_master: move_cc(self.m0.m0_time_master, scaled(delta, ds)),
            ..self.m0
        }
    }

    fn scroll_found(&self) -> (r: bool)
        requires
            self@.in_range(),
        ensures
            r == self@.scroll_found(),
    {
        let xpos: u32 = self.scroll_xpos();
        let live: u8 = self.scx_f1_pending_at_cc(self.clk.abs_cc) % 8;
        xpos % 8 == live as u32 || xpos >= 80
    }

    fn scroll_cols(&self, ds: bool) -> (r: (u16, u16))
        requires
            self@.in_range(),
        ensures
            r.0 == self@.scroll_cols(ds).0,
            r.1 == self@.scroll_cols(ds).1,
    {
        let fine: u64 = (self.scroll_xpos() % 8) as u64;
        let back: u64 = if ds { fine * 2 } else { fine };
        let full: u16 = if self.m3.m3_arm_scx_full < 0 {
            0
        } else {
            self.m3.m3_arm_scx_full as u16
        };
        let col_scx: u8 = self.scx_f1_pending_at_cc(self.clk.abs_cc.wrapping_sub(back));
        (full / 8 % 32, (col_scx / 8) as u16 % 32)
    }

    fn latch_scroll(&mut self, mmio: &Mmio) -> (r: bool)
        requires
            old(self).wf(),
            old(self)@.in_range(),
            old(self)@.m0.below(5 * CLOCK_LIMIT),
        ensures
            final(self).wf(),
            final(self)@.in_range(),
            (final(self)@, r) == old(self)@.latch_scroll(*mmio),
    {
        reveal(PpuView::latch_scroll);
        if self.x != 0 || self.m3.m3_discard_target >= 0 || !self.scroll_found() {
            return false;
        }
        let ds = mmio.is_double_speed_mode();
        let m0: M0 = self.m0_for_scroll(ds);
        let (arm_col, col): (u16, u16) = self.scroll_cols(ds);
        if mmio.is_cgb_features_enabled() && self.m3.m3_arm_scx_full >= 0 && col != arm_col {
            let row: u16 = self.bg_row(mmio);
            let scx: u8 = self.scx_f1_pending_at_cc(self.clk.abs_cc);
            self.rewrite_first_fifo_tile(mmio, col, row);
            self.m3 = M3 {
                m3_pixels_discarded: 0,
                m3_discard_target: (scx % 8) as i8,
                ..self.m3
            };
            self.m0 = m0;
            return true;
        }
        let xpos: u32 = self.scroll_xpos();
        self.m3 = M3 { m3_discard_target: xpos as i8, ..self.m3 };
        self.m0 = m0;
        false
    }

    fn use_stall(&mut self) -> (r: bool)
        requires
            old(self).wf(),
            old(self)@.in_range(),
        ensures
            final(self).wf(),
            final(self)@.in_range(),
            (final(self)@, r) == old(self)@.use_stall(),
    {
        if self.objs.sprite_fetch_stall > 0 {
            self.objs = Objs {
                sprite_fetch_stall: self.objs.sprite_fetch_stall - 1,
                ..self.objs
            };
            return true;
        }
        false
    }

    fn stall_for_sprites(&mut self, mmio: &Mmio) -> (r: bool)
        requires
            old(self).wf(),
            old(self)@.in_range(),
        ensures
            final(self).wf(),
            final(self)@.in_range(),
            (final(self)@, r) == old(self)@.stall_for_sprites(*mmio),
    {
        reveal(PpuView::stall_for_sprites);
        if self.objs.sprite_fetch_stall > 0 {
            return self.use_stall();
        }
        if self.fetcher.get_fifo_size() != 0 && self.objs.pixel_transfer_warmup == 0 {
            let cost: u8 = match self.sprite_fetch_penalty_for_current_x(mmio) {
                Some(c) => c,
                None => 0,
            };
            self.objs = Objs { sprite_fetch_stall: cost, ..self.objs };
            return self.use_stall();
        }
        false
    }

    fn cadence_even(&self, mmio: &Mmio) -> (r: bool)
        ensures
            r == self@.cadence_even(*mmio),
    {
        if mmio.is_cgb_features_enabled() {
            self.objs.fetcher_cadence_tick % 2 == 0
        } else {
            match self.win.win_fetch_anchor {
                Some(a) => self.ticks.wrapping_sub(a) % 2 == 0,
                None => self.ticks % 2 == 0,
            }
        }
    }

    fn anchor_bg(&mut self, mmio: &Mmio, even: bool)
        requires
            old(self).wf(),
            old(self)@.in_range(),
        ensures
            final(self).wf(),
            final(self)@.in_range(),
            final(self)@ == old(self)@.anchor_bg(*mmio, even),
    {
        reveal(PpuView::anchor_bg);
        if even && self.wg.bg_anchor_cc.is_none() && self.wg.bg_anchor_dot.is_none()
            && !self.fetcher.is_fetching_window() && self.fetcher.fetch_state_is_tile_number()
            && self.fetcher.get_tile_index() == 0 {
            let cc: Option<u64> = if mmio.is_cgb_features_enabled() {
                None
            } else {
                Some(self.clk.abs_cc)
            };
            self.wg = BusGlitch {
                bg_anchor_dot: Some(self.ticks),
                bg_anchor_cc: cc,
                ..self.wg
            };
        }
    }

    fn pending_discard(&self) -> (r: u8)
        ensures
            r == self@.pending_discard(),
    {
        if self.x == 0 && self.m3.m3_discard_target as i16 > self.m3.m3_pixels_discarded as i16 {
            (self.m3.m3_discard_target as i16 - self.m3.m3_pixels_discarded as i16) as u8
        } else {
            0
        }
    }

    fn dot_fetch(&mut self, mmio: &Mmio)
        requires
            old(self).wf(),
            old(self)@.in_range(),
        ensures
            final(self).wf(),
            final(self)@.in_range(),
            final(self)@ == old(self)@.dot_fetch(*mmio),
    {
        let even = self.cadence_even(mmio);
        if mmio.is_cgb_features_enabled() {
            self.objs = Objs {
                fetcher_cadence_tick: self.objs.fetcher_cadence_tick.wrapping_add(1),
                ..self.objs
            };
        }
        self.kill_window(mmio, even);
        self.anchor_bg(mmio, even);
        let fls: FetcherLcdcState = self.bg_wg_apply(self.wg_apply(self.fetcher_lcdc_state()));
        let discard: u8 = self.pending_discard();
        let _ = self.mode3_fetch_step(mmio, even, fls, discard);
    }

    fn warm_up(&mut self) -> (r: bool)
        requires
            old(self).wf(),
            old(self)@.in_range(),
        ensures
            final(self).wf(),
            final(self)@.in_range(),
            (final(self)@, r) == old(self)@.warm_up(),
    {
        if self.fetcher.get_fifo_size() == 0 {
            return true;
        }
        if self.objs.pixel_transfer_warmup > 0 {
            self.objs = Objs {
                pixel_transfer_warmup: self.objs.pixel_transfer_warmup - 1,
                ..self.objs
            };
            return true;
        }
        false
    }

    fn trigger_we(&self, mmio: &Mmio) -> (r: bool)
        ensures
            r == self@.trigger_we(*mmio),
    {
        if mmio.is_cgb_features_enabled() {
            return self.lcdc_has(LCDCFlags::WindowDisplayEnable);
        }
        let h: WeHist = self.win.we_dot_hist;
        match self.pending_discard() {
            0 => h.d1 && h.d2,
            1 => h.d0 && h.d1,
            _ => h.d0,
        }
    }

    fn drop_pixel(&mut self) -> (r: bool)
        requires
            old(self).wf(),
            old(self)@.in_range(),
        ensures
            final(self).wf(),
            final(self)@.in_range(),
            (final(self)@, r) == old(self)@.drop_pixel(),
            !r ==> final(self)@ == old(self)@,
    {
        match self.fetcher.pop_pixel() {
            Some(_) => {
                self.win = Win { win_being_fetched: false, ..self.win };
                true
            },
            None => false,
        }
    }

    fn chop_window(&mut self) -> (r: bool)
        requires
            old(self).wf(),
            old(self)@.in_range(),
        ensures
            final(self).wf(),
            final(self)@.in_range(),
            (final(self)@, r) == old(self)@.chop_window(),
    {
        reveal(PpuView::chop_window);
        if self.x != 0 || self.win.win_first_tile_chop == 0 {
            return false;
        }
        let chop: u8 = self.win.win_first_tile_chop - 1;
        if self.drop_pixel() {
            self.win = Win { win_first_tile_chop: chop, ..self.win };
        }
        true
    }

    fn discard_scroll(&mut self, mmio: &Mmio) -> (r: bool)
        requires
            old(self).wf(),
            old(self)@.in_range(),
        ensures
            final(self).wf(),
            final(self)@.in_range(),
            (final(self)@, r) == old(self)@.discard_scroll(*mmio),
    {
        reveal(PpuView::discard_scroll);
        if self.x != 0 {
            return false;
        }
        if self.m3.m3_discard_target < 0 {
            return true;
        }
        if self.pending_discard() == 0 {
            return false;
        }
        let next: u8 = self.m3.m3_pixels_discarded + 1;
        if self.win.we_glitch_discard_insert {
            self.win = Win {
                we_glitch_discard_insert: false,
                win_being_fetched: false,
                ..self.win
            };
            self.m3 = M3 { m3_pixels_discarded: next, ..self.m3 };
            return true;
        }
        let locked = self.fetcher.is_fetching_window() && !self.win.win_draw_started_at_x0
            && mmio.wx == 7;
        if !locked && self.drop_pixel() {
            self.m3 = M3 { m3_pixels_discarded: next, ..self.m3 };
            return true;
        }
        false
    }

    fn window_restart_stray(&self, mmio: &Mmio) -> (r: bool)
        requires
            self.wf(),
        ensures
            r == self@.window_restart_stray(*mmio),
    {
        !mmio.is_cgb_features_enabled() && self.win.window_started_this_line
            && self.fetcher.is_fetching_window() && !self.win.win_being_fetched
            && self.fetcher.get_fifo_size() == 8 && mmio.wx == self.x + 7
    }

    fn window_off_stray(&self, mmio: &Mmio) -> (r: bool)
        requires
            self.wf(),
        ensures
            r == self@.window_off_stray(*mmio),
    {
        let at_a = match self.win.we_glitch_tile_start_a {
            Some(fx) => fx == self.x,
            None => false,
        };
        let at_b = match self.win.we_glitch_tile_start_b {
            Some(fx) => fx == self.x,
            None => false,
        };
        !mmio.is_cgb() && self.win.window_y_triggered && !self.fetcher.is_fetching_window()
            && !self.win.we_dot_hist.d2 && !self.win.we_insert_suppressed && (at_a || at_b)
            && mmio.wx == self.x + 7
    }

    fn tile_start_after(start: Option<u8>, x: u8, stray: bool) -> (r: Option<u8>)
        ensures
            r == PpuView::tile_start_after(start, x, stray),
    {
        match start {
            Some(fx) => if fx <= x {
                None
            } else if stray && fx < 255 {
                Some(fx + 1)
            } else {
                Some(fx)
            },
            None => None,
        }
    }

    fn find_strays(&mut self, mmio: &Mmio)
        requires
            old(self).wf(),
            old(self)@.in_range(),
        ensures
            final(self).wf(),
            final(self)@.in_range(),
            final(self)@ == old(self)@.find_strays(*mmio),
            final(self)@.x == old(self)@.x,
    {
        reveal(PpuView::find_strays);
        let restart = self.window_restart_stray(mmio);
        let stray = self.window_off_stray(mmio);
        let a: Option<u8> = Self::tile_start_after(
            self.win.we_glitch_tile_start_a,
            self.x,
            stray,
        );
        let b: Option<u8> = Self::tile_start_after(
            self.win.we_glitch_tile_start_b,
            self.x,
            stray,
        );
        self.win = Win {
            insert_bg_pixel: self.win.insert_bg_pixel || restart || stray,
            we_glitch_tile_start_a: a,
            we_glitch_tile_start_b: b,
            ..self.win
        };
    }

    fn dot_before_fetch(&mut self, mmio: &mut Mmio, fast: bool) -> (r: bool)
        requires
            old(self).wf(),
            old(self)@.in_range(),
            old(self)@.m0.below(4 * CLOCK_LIMIT),
            old(mmio).wf(),
            old(mmio).ly < 144,
        ensures
            final(self).wf(),
            !r ==> final(self)@.in_range(),
            (final(self)@, *final(mmio), r) == old(self)@.dot_before_fetch(*old(mmio), fast),
    {
        self.shift_we_hist();
        self.mode3_rekey_wx_change(mmio, fast);
        self.resolve_wx_penalty(mmio, fast);
        if self.reach_mode0(mmio) {
            return true;
        }
        if self.latch_scroll(mmio) {
            return true;
        }
        if self.stall_for_sprites(mmio) {
            return true;
        }
        self.early_window(mmio)
    }

    fn dot_start_window(&mut self, mmio: &Mmio) -> (r: bool)
        requires
            old(self).wf(),
            old(self)@.in_range(),
        ensures
            final(self).wf(),
            !r ==> final(self)@.in_range(),
            (final(self)@, r) == old(self)@.dot_start_window(*mmio),
    {
        reveal(PpuView::dot_start_window);
        if self.warm_up() {
            return true;
        }
        if self.deferred_window(mmio) {
            return true;
        }
        let we = self.trigger_we(mmio);
        self.mode3_activate_window(mmio, we)
    }

    fn dot_put_pixel(&mut self, mmio: &mut Mmio)
        requires
            old(self).wf(),
            old(self)@.in_range(),
            old(mmio).wf(),
            old(mmio).ly < 144,
        ensures
            final(self).wf(),
            (final(self)@, *final(mmio)) == old(self)@.dot_put_pixel(*old(mmio)),
    {
        reveal(PpuView::dot_put_pixel);
        if self.chop_window() {
            return;
        }
        if self.discard_scroll(mmio) || self.x >= 160 {
            return;
        }
        self.find_strays(mmio);
        self.draw_and_end(mmio);
    }

    fn dot_after_fetch(&mut self, mmio: &mut Mmio)
        requires
            old(self).wf(),
            old(self)@.in_range(),
            old(mmio).wf(),
            old(mmio).ly < 144,
        ensures
            final(self).wf(),
            (final(self)@, *final(mmio)) == old(self)@.dot_after_fetch(*old(mmio)),
    {
        if !self.dot_start_window(mmio) {
            self.dot_put_pixel(mmio);
        }
    }

    pub(crate) fn step_mode3_dot(&mut self, mmio: &mut Mmio, fast: bool)
        requires
            old(self).wf(),
            old(self)@.in_range(),
            old(self)@.m0.below(4 * CLOCK_LIMIT),
            old(mmio).wf(),
            old(mmio).ly < 144,
        ensures
            final(self).wf(),
            (final(self)@, *final(mmio)) == old(self)@.step_mode3_dot(*old(mmio), fast),
    {
        if self.dot_before_fetch(mmio, fast) {
            return;
        }
        proof {
            lemma_before_fetch_bus(old(self)@, *old(mmio), fast);
        }
        self.dot_fetch(mmio);
        self.dot_after_fetch(mmio);
    }
}

/// The part before the fetch changes nothing of the bus but STAT.
proof fn lemma_before_fetch_bus(s: PpuView, m: Mmio, fast: bool)
    ensures
        ({
            let n = s.dot_before_fetch(m, fast).1;
            n == (Mmio { stat: n.stat, ..m })
        }),
{
}

} // verus!
