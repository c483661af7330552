//! Mode 3: the dot's fetcher step, and tiles that are read again because a
//! scroll write fell between two fetches.

use vstd::prelude::*;

use crate::arith::{floor_mod, imax, imin, min_i32};
use crate::fetcher::{
    row_colors, tile_data_address, tile_map_base, FetcherDebugEvent, FetcherDebugEventKind,
    FetcherLcdcState, FetcherView,
};
use crate::fifo::{overlay, BgPixel};
use crate::journal::{CapturedTile, JournalView};
use crate::line_objs::{has_x_within, leftmost_upto16};
use crate::mmio::Mmio;
use crate::regs::{as_signed, dots_to_cycles, lcdc_has, scaled, signed, LCDCFlags};
use crate::sgb_picture::row_bit_exec;
use crate::state::{Ppu, PpuView, Win, M3};

verus! {

impl PpuView {
    /// The eight pixels of background map column `col`, row `bg_y`, as LCDC
    /// stands.
    #[verifier::opaque]
    pub open spec fn bg_pixels_at_col(self, m: Mmio, col: int, bg_y: int) -> Seq<BgPixel> {
        let base = tile_map_base(self.lcdc_has(LCDCFlags::BGTileMapDisplaySelect));
        let map_addr = (base + ((bg_y / 8) % 32) * 32 + col % 32) as u16;
        let tile = m.read_vram_bank(0, map_addr);
        let attrs = if m.cgb_features { m.read_vram_bank(1, map_addr) } else { 0 };
        let y_flip = m.cgb_features && attrs & 0x40 != 0;
        let x_flip = m.cgb_features && attrs & 0x20 != 0;
        let line = (if y_flip { 7 - bg_y % 8 } else { bg_y % 8 }) as u8;
        let addr = tile_data_address(tile, line, self.lcdc.reg);
        let bank = if m.cgb_features && attrs & 0x08 != 0 { 1u8 } else { 0 };
        let colors = row_colors(
            m.read_vram_bank(bank, addr as u16),
            m.read_vram_bank(bank, (addr + 1) as u16),
            x_flip,
        );
        Seq::new(8, |i: int| BgPixel { color: colors[i], attrs })
    }

    /// The background row of the line.
    pub open spec fn bg_row(self, m: Mmio) -> int {
        (self.latch.scy_delayed + m.ly) % 256
    }

    /// The map column of the tile queued last, under scroll `scx`.
    pub open spec fn queued_col(self, scx: u8) -> int {
        (scx + self.fetcher.subcc_xpos + self.fetcher.subcc_cgb_adj) / 8 % 32
    }

    pub open spec fn col_new(self) -> int {
        self.queued_col(self.m3.subcc_scx_new)
    }

    pub open spec fn col_old(self) -> int {
        self.queued_col(self.m3.subcc_scx_old)
    }

    /// The tile queued last is read again at map column `col`, if the scroll
    /// write moved it.
    pub open spec fn requeue_newest(self, m: Mmio, col: int) -> PpuView {
        if self.col_new() != self.col_old() {
            PpuView {
                fetcher: self.fetcher.with_newest(
                    self.bg_pixels_at_col(m, col, self.bg_row(m)),
                ),
                ..self
            }
        } else {
            self
        }
    }

    /// The same at the queue position that the tile was fetched for.
    pub open spec fn requeue_in_place(self, m: Mmio, col: int) -> PpuView {
        let off = imax(0, self.fetcher.subcc_xpos - self.x);
        if self.col_new() != self.col_old() {
            PpuView {
                fetcher: FetcherView {
                    fifo: overlay(
                        self.fetcher.fifo,
                        off,
                        self.bg_pixels_at_col(m, col, self.bg_row(m)),
                    ),
                    ..self.fetcher
                },
                ..self
            }
        } else {
            self
        }
    }

    /// The screen column at which a pushed tile starts.
    pub open spec fn pushed_first_x(self, e: FetcherDebugEvent, pending_discard: u8) -> int {
        self.x + e.fifo_size - 8 - pending_discard
    }

    /// Notes where the tiles just queued start, for stray pixels that a window
    /// switched off leaves behind; a tile that starts left of the screen can
    /// leave one in the discarded part.
    #[verifier::opaque]
    pub open spec fn noted_tile_start(self, m: Mmio, first_x: int) -> Win {
        let w = self.win;
        let logical = if 0 <= first_x + 7 <= 167 { first_x + 7 } else { 0 };
        if m.cgb_features {
            w
        } else if 0 <= first_x < 160 {
            if w.we_glitch_tile_start_a is None {
                Win { we_glitch_tile_start_a: Some(first_x as u8), ..w }
            } else if w.we_glitch_tile_start_b is None {
                Win { we_glitch_tile_start_b: Some(first_x as u8), ..w }
            } else {
                w
            }
        } else if first_x < 0 && !m.is_cgb() && w.window_y_triggered
            && !self.fetcher.fetching_window && !w.we_dot_hist.d2 && !w.we_insert_suppressed
            && m.wx == logical {
            Win { we_glitch_discard_insert: true, ..w }
        } else {
            w
        }
    }

    pub open spec fn note_tile_start(self, m: Mmio, first_x: int) -> PpuView {
        PpuView { win: self.noted_tile_start(m, first_x), ..self }
    }

    /// Keeps the tile just queued for the line's end, on CGB hardware without
    /// CGB mode and with writes on the bus.
    #[verifier::opaque]
    pub open spec fn capture_tile(self, e: FetcherDebugEvent, first_x: int) -> PpuView {
        let x = imax(0, first_x);
        let chop = if e.fetching_window && self.x == 0 { self.win.win_first_tile_chop } else { 0 };
        let tile = CapturedTile {
            n: e.tile_index,
            tn: e.tile_num,
            first_x: x as u8,
            lead: imin(255, x - first_x + chop) as u8,
            y: if e.fetching_window { self.win.win_y_pos } else { self.fetcher.latched_y },
            live_low_tds: self.fetcher.last_low_tds,
            live_high_tds: self.fetcher.last_high_tds,
        };
        if self.wg.wg_cgb && self.journal.wg_hist.len() > 0 && x < 160 {
            PpuView {
                journal: if e.fetching_window {
                    JournalView {
                        win_tiles: self.journal.win_tiles.push(tile),
                        ..self.journal
                    }
                } else {
                    JournalView { bg_tiles: self.journal.bg_tiles.push(tile), ..self.journal }
                },
                ..self
            }
        } else {
            self
        }
    }

    /// Clock cycles from the scroll write to the tile's first pixel.
    pub open spec fn rekey_gap(self, ds: bool) -> int {
        self.clk.abs_cc + dots_to_cycles(self.fetcher.subcc_xpos - self.x, ds) - signed(
            self.m3.subcc_scx_apply_cc,
        )
    }

    /// The scroll write falls between the tile's fetch and its queueing.
    pub open spec fn rekey_flips(self, m: Mmio) -> bool {
        let low_sprite = !m.cgb_features && self.lcdc_has(LCDCFlags::SpriteDisplayEnable)
            && has_x_within(self.line.sprites, 0, 8);
        if !m.double_speed {
            self.rekey_gap(false) == 4 && !low_sprite
        } else {
            (signed(self.m3.subcc_scx_apply_cc) - self.m3.subcc_last_tn_cc) % 4 == 2
        }
    }

    /// A scroll write that was armed meets the tile just queued. `true` when a
    /// tile to come is affected too.
    #[verifier::opaque]
    pub open spec fn rekey_scroll(self, m: Mmio) -> (PpuView, bool) {
        let s = PpuView { m3: M3 { subcc_rekey_armed: false, ..self.m3 }, ..self };
        let two_tile = m.double_speed && m.cgb_features && has_x_within(self.line.sprites, 0, 16);
        let even = leftmost_upto16(self.line.sprites) matches Some(x) && x % 2 == 0;
        if !self.m3.subcc_rekey_armed {
            (self, false)
        } else if self.rekey_flips(m) && two_tile {
            let t = s.requeue_in_place(m, s.col_old());
            if m.ly == 0 && even {
                (PpuView { m3: M3 { ds_straddle_next_old: true, ..t.m3 }, ..t }, true)
            } else {
                (t, false)
            }
        } else if self.rekey_flips(m) {
            (s.requeue_newest(m, s.col_new()), false)
        } else if !m.double_speed && m.cgb_features && self.rekey_gap(false) == 1 && has_x_within(
            self.line.sprites,
            1,
            8,
        ) {
            (PpuView { m3: M3 { subcc_revert_next_old: true, ..s.m3 }, ..s }, true)
        } else {
            (s, false)
        }
    }

    /// The tile after keeps the old scroll.
    #[verifier::opaque]
    pub open spec fn revert_scroll(self, m: Mmio, armed_now: bool) -> PpuView {
        let s = PpuView { m3: M3 { subcc_revert_next_old: false, ..self.m3 }, ..self };
        if self.m3.subcc_revert_next_old && !armed_now {
            s.requeue_newest(m, s.col_old())
        } else {
            self
        }
    }

    #[verifier::opaque]
    pub open spec fn straddle_scroll(self, m: Mmio, armed_now: bool) -> PpuView {
        let s = PpuView { m3: M3 { ds_straddle_next_old: false, ..self.m3 }, ..self };
        if self.m3.ds_straddle_next_old && !armed_now {
            s.requeue_in_place(m, s.col_old())
        } else {
            self
        }
    }

    /// A scroll write before the first pixel.
    #[verifier::opaque]
    pub open spec fn prologue_scroll(self, m: Mmio) -> PpuView {
        let s = PpuView { m3: M3 { prologue_rekey_armed: false, ..self.m3 }, ..self };
        if self.m3.prologue_rekey_armed { s.requeue_newest(m, s.col_new()) } else { self }
    }

    /// What follows the queueing of a tile.
    pub open spec fn after_push(self, m: Mmio, e: FetcherDebugEvent, pending_discard: u8) -> PpuView {
        let first_x = self.pushed_first_x(e, pending_discard);
        let (s, armed) = self.note_tile_start(m, first_x).capture_tile(e, first_x).rekey_scroll(m);
        s.revert_scroll(m, armed).straddle_scroll(m, armed).prologue_scroll(m)
    }

    /// What follows a fetcher step.
    pub open spec fn after_fetch(
        self,
        m: Mmio,
        e: FetcherDebugEvent,
        pending_discard: u8,
    ) -> PpuView {
        let s = self.note_tile_number(e);
        let t = if e.kind == FetcherDebugEventKind::PushToFifo {
            s.after_push(m, e, pending_discard)
        } else {
            s
        };
        t.record_fetch(e, m)
    }

    /// The dot's fetcher step, every other dot; `true` when a tile was queued.
    #[verifier::opaque]
    pub open spec fn fetch_step(
        self,
        m: Mmio,
        cadence_even: bool,
        fls: FetcherLcdcState,
        pending_discard: u8,
    ) -> (PpuView, bool) {
        if !cadence_even {
            (self, false)
        } else {
            let (fetcher, ev) = self.fetcher.step(m, fls, self.fetch_pos(pending_discard));
            let s = PpuView { fetcher, ..self };
            match ev {
                None => (s, false),
                Some(e) => (
                    s.after_fetch(m, e, pending_discard),
                    e.kind == FetcherDebugEventKind::PushToFifo,
                ),
            }
        }
    }
}

impl Ppu {
    pub fn bg_pixels_at_col(&self, mmio: &Mmio, tile_col: u16, bg_y: u16) -> (r: [BgPixel; 8])
        ensures
            r@ == self@.bg_pixels_at_col(*mmio, tile_col as int, bg_y as int),
    {
        reveal(PpuView::bg_pixels_at_col);
        let lcdc: u8 = self.lcdc.reg;
        let cgb = mmio.is_cgb_features_enabled();
        let map_base: u16 = tile_map_base(lcdc_has(lcdc, LCDCFlags::BGTileMapDisplaySelect));
        let map_addr: u16 = map_base + ((bg_y / 8) % 32) * 32 + tile_col % 32;
        let tile_num: u8 = mmio.read_vram_bank(0, map_addr);
        let tile_attrs: u8 = if cgb { mmio.read_vram_bank(1, map_addr) } else { 0 };
        let y_flip = cgb && (tile_attrs & 0x40) != 0;
        let x_flip = cgb && (tile_attrs & 0x20) != 0;
        let tile_line: u8 = (bg_y % 8) as u8;
        let eff_line: u8 = if y_flip { 7 - tile_line } else { tile_line };
        let data_addr: u16 = self.fetcher.get_tile_data_address(tile_num, eff_line, lcdc);
        let bank: u8 = if cgb && (tile_attrs & 0x08) != 0 { 1 } else { 0 };
        let low: u8 = mmio.read_vram_bank(bank, data_addr);
        let high: u8 = mmio.read_vram_bank(bank, data_addr + 1);
        let mut pixels: [BgPixel; 8] = [BgPixel { color: 0, attrs: 0 };8];
        let ghost colors = row_colors(low, high, x_flip);
        let mut i: usize = 0;
        while i < 8
            invariant
                i <= 8,
                colors == row_colors(low, high, x_flip),
                forall|k: int|
                    0 <= k < i ==> #[trigger] pixels@[k] == (BgPixel {
                        color: colors[k],
                        attrs: tile_attrs,
                    }),
            decreases 8 - i,
        {
            let bit: u8 = i as u8;
            let color: u8 = (row_bit_exec(high, bit, x_flip) << 1) | row_bit_exec(low, bit, x_flip);
            pixels[i] = BgPixel { color, attrs: tile_attrs };
            i += 1;
        }
        assert(pixels@ =~= self@.bg_pixels_at_col(*mmio, tile_col as int, bg_y as int));
        pixels
    }

    /// Reads the first queued tile again.
    pub(crate) fn rewrite_first_fifo_tile(&mut self, mmio: &Mmio, tile_col: u16, bg_y: u16)
        requires
            old(self).wf(),
            old(self)@.in_range(),
        ensures
            final(self).wf(),
            final(self)@.in_range(),
            final(self)@ == (PpuView {
                fetcher: FetcherView {
                    fifo: overlay(
                        old(self)@.fetcher.fifo,
                        0,
                        old(self)@.bg_pixels_at_col(*mmio, tile_col as int, bg_y as int),
                    ),
                    ..old(self)@.fetcher
                },
                ..old(self)@
            }),
    {
        let pixels: [BgPixel; 8] = self.bg_pixels_at_col(mmio, tile_col, bg_y);
        self.fetcher.overwrite_oldest(&pixels);
    }

    pub fn bg_row(&self, mmio: &Mmio) -> (r: u16)
        ensures
            r == self@.bg_row(*mmio),
    {
        (self.latch.scy_delayed as u16 + mmio.ly as u16) % 256
    }

    fn queued_cols(&self) -> (r: (u16, u16))
        requires
            self.wf(),
        ensures
            r.0 == self@.col_new(),
            r.1 == self@.col_old(),
    {
        let (xpos, cgb_adj, _scx): (u16, u8, u8) = self.fetcher.subcc_last_column_inputs();
        (
            (self.m3.subcc_scx_new as u16 + xpos + cgb_adj as u16) / 8 % 32,
            (self.m3.subcc_scx_old as u16 + xpos + cgb_adj as u16) / 8 % 32,
        )
    }

    fn requeue_newest(&mut self, mmio: &Mmio, use_new: bool)
        requires
            old(self).wf(),
            old(self)@.in_range(),
        ensures
            final(self).wf(),
            final(self)@.in_range(),
            final(self)@ == old(self)@.requeue_newest(
                *mmio,
                if use_new { old(self)@.col_new() } else { old(self)@.col_old() },
            ),
    {
        let (new_col, old_col): (u16, u16) = self.queued_cols();
        if new_col != old_col {
            let row: u16 = self.bg_row(mmio);
            let pixels: [BgPixel; 8] = self.bg_pixels_at_col(
                mmio,
                if use_new { new_col } else { old_col },
                row,
            );
            self.fetcher.overwrite_newest(&pixels);
        }
    }

    fn requeue_old_in_place(&mut self, mmio: &Mmio)
        requires
            old(self).wf(),
            old(self)@.in_range(),
        ensures
            final(self).wf(),
            final(self)@.in_range(),
            final(self)@ == old(self)@.requeue_in_place(*mmio, old(self)@.col_old()),
    {
        let (new_col, old_col): (u16, u16) = self.queued_cols();
        if new_col != old_col {
            let row: u16 = self.bg_row(mmio);
            let pixels: [BgPixel; 8] = self.bg_pixels_at_col(mmio, old_col, row);
            let (xpos, _adj, _scx): (u16, u8, u8) = self.fetcher.subcc_last_column_inputs();
            let x: u16 = self.x as u16;
            let off: usize = if xpos < x { 0 } else { (xpos - x) as usize };
            self.fetcher.overwrite_at(off, &pixels);
        }
    }

    fn noted_tile_start(&self, mmio: &Mmio, first_x: i32) -> (r: Win)
        requires
            -1000 < first_x < 1000,
        ensures
            r == self@.noted_tile_start(*mmio, first_x as int),
            r.win_start_dot == self@.win.win_start_dot,
            r.predicted_win_start_dot == self@.win.predicted_win_start_dot,
    {
        reveal(PpuView::noted_tile_start);
        let w: Win = self.win;
        if mmio.is_cgb_features_enabled() {
            return w;
        }
        if 0 <= first_x && first_x < 160 {
            if w.we_glitch_tile_start_a.is_none() {
                return Win { we_glitch_tile_start_a: Some(first_x as u8), ..w };
            }
            if w.we_glitch_tile_start_b.is_none() {
                return Win { we_glitch_tile_start_b: Some(first_x as u8), ..w };
            }
            return w;
        }
        let logical: i32 = if 0 <= first_x + 7 { first_x + 7 } else { 0 };
        if first_x < 0 && !mmio.is_cgb() && w.window_y_triggered
            && !self.fetcher.is_fetching_window() && !w.we_dot_hist.d2 && !w.we_insert_suppressed
            && mmio.wx as i32 == logical {
            return Win { we_glitch_discard_insert: true, ..w };
        }
        w
    }

    fn note_tile_start(&mut self, mmio: &Mmio, first_x: i32)
        requires
            old(self).wf(),
            old(self)@.in_range(),
            -1000 < first_x < 1000,
        ensures
            final(self).wf(),
            final(self)@.in_range(),
            final(self)@ == old(self)@.note_tile_start(*mmio, first_x as int),
    {
        self.win = self.noted_tile_start(mmio, first_x);
    }

    fn capture_tile(&mut self, e: &FetcherDebugEvent, first_x: i32)
        requires
            old(self).wf(),
            old(self)@.in_range(),
            -1000 < first_x < 1000,
        ensures
            final(self).wf(),
            final(self)@.in_range(),
            final(self)@ == old(self)@.capture_tile(*e, first_x as int),
    {
        reveal(PpuView::capture_tile);
        let x: i32 = if first_x < 0 { 0 } else { first_x };
        if self.wg.wg_cgb && self.journal.wg_hist().len() > 0 && x < 160 {
            let chop: u8 = if e.fetching_window && self.x == 0 {
                self.win.win_first_tile_chop
            } else {
                0
            };
            let tile = CapturedTile {
                n: e.tile_index,
                tn: e.tile_num,
                first_x: x as u8,
                lead: min_i32(255, x - first_x + chop as i32) as u8,
                y: if e.fetching_window { self.win.win_y_pos } else { self.fetcher.latched_y() },
                live_low_tds: self.fetcher.last_low_tds(),
                live_high_tds: self.fetcher.last_high_tds(),
            };
            if e.fetching_window {
                self.journal.push_win_tile(tile);
            } else {
                self.journal.push_bg_tile(tile);
            }
        }
    }

    fn rekey_gap(&self, ds: bool) -> (r: i64)
        requires
            self.wf(),
            self@.in_range(),
        ensures
            r == self@.rekey_gap(ds),
    {
        let (xpos, _adj, _scx): (u16, u8, u8) = self.fetcher.subcc_last_column_inputs();
        let plot_cc: i64 = self.clk.abs_cc as i64 + scaled(xpos as i64 - self.x as i64, ds);
        plot_cc - as_signed(self.m3.subcc_scx_apply_cc)
    }

    fn rekey_flips(&self, mmio: &Mmio) -> (r: bool)
        requires
            self.wf(),
            self@.in_range(),
        ensures
            r == self@.rekey_flips(*mmio),
    {
        if !mmio.is_double_speed_mode() {
            let low_sprite = !mmio.is_cgb_features_enabled() && self.lcdc_has(
                LCDCFlags::SpriteDisplayEnable,
            ) && self.line.has_x_within(0, 8);
            self.rekey_gap(false) == 4 && !low_sprite
        } else {
            let span: i64 = as_signed(self.m3.subcc_scx_apply_cc)
                - self.m3.subcc_last_tn_cc as i64;
            floor_mod(span, 4) == 2
        }
    }

    fn rekey_scroll(&mut self, mmio: &Mmio) -> (r: bool)
        requires
            old(self).wf(),
            old(self)@.in_range(),
        ensures
            final(self).wf(),
            final(self)@.in_range(),
            (final(self)@, r) == old(self)@.rekey_scroll(*mmio),
    {
        reveal(PpuView::rekey_scroll);
        if !self.m3.subcc_rekey_armed {
            return false;
        }
        let flips = self.rekey_flips(mmio);
        let ds = mmio.is_double_speed_mode();
        let cgb = mmio.is_cgb_features_enabled();
        let two_tile = ds && cgb && self.line.has_x_within(0, 16);
        let late = !ds && cgb && self.rekey_gap(false) == 1 && self.line.has_x_within(1, 8);
        self.m3 = M3 { subcc_rekey_armed: false, ..self.m3 };
        if flips && two_tile {
            self.requeue_old_in_place(mmio);
            let even = match self.line.leftmost_upto16() {
                Some(x) => x % 2 == 0,
                None => false,
            };
            if mmio.ly == 0 && even {
                self.m3 = M3 { ds_straddle_next_old: true, ..self.m3 };
                return true;
            }
            return false;
        }
        if flips {
            self.requeue_newest(mmio, true);
            return false;
        }
        if late {
            self.m3 = M3 { subcc_revert_next_old: true, ..self.m3 };
            return true;
        }
        false
    }

    fn revert_scroll(&mut self, mmio: &Mmio, armed_now: bool)
        requires
            old(self).wf(),
            old(self)@.in_range(),
        ensures
            final(self).wf(),
            final(self)@.in_range(),
            final(self)@ == old(self)@.revert_scroll(*mmio, armed_now),
    {
        reveal(PpuView::revert_scroll);
        if self.m3.subcc_revert_next_old && !armed_now {
            self.m3 = M3 { subcc_revert_next_old: false, ..self.m3 };
            self.requeue_newest(mmio, false);
        }
    }

    fn straddle_scroll(&mut self, mmio: &Mmio, armed_now: bool)
        requires
            old(self).wf(),
            old(self)@.in_range(),
        ensures
            final(self).wf(),
            final(self)@.in_range(),
            final(self)@ == old(self)@.straddle_scroll(*mmio, armed_now),
    {
        reveal(PpuView::straddle_scroll);
        if self.m3.ds_straddle_next_old && !armed_now {
            self.m3 = M3 { ds_straddle_next_old: false, ..self.m3 };
            self.requeue_old_in_place(mmio);
        }
    }

    fn prologue_scroll(&mut self, mmio: &Mmio)
        requires
            old(self).wf(),
            old(self)@.in_range(),
        ensures
            final(self).wf(),
            final(self)@.in_range(),
            final(self)@ == old(self)@.prologue_scroll(*mmio),
    {
        reveal(PpuView::prologue_scroll);
        if self.m3.prologue_rekey_armed {
            self.m3 = M3 { prologue_rekey_armed: false, ..self.m3 };
            self.requeue_newest(mmio, true);
        }
    }

    fn after_push(&mut self, mmio: &Mmio, e: &FetcherDebugEvent, pending_discard: u8)
        requires
            old(self).wf(),
            old(self)@.in_range(),
            e.fifo_size <= 16,
        ensures
            final(self).wf(),
            final(self)@.in_range(),
            final(self)@ == old(self)@.after_push(*mmio, *e, pending_discard),
    {
        let first_x: i32 = self.x as i32 + e.fifo_size as i32 - 8 - pending_discard as i32;
        self.note_tile_start(mmio, first_x);
        self.capture_tile(e, first_x);
        let armed = self.rekey_scroll(mmio);
        self.revert_scroll(mmio, armed);
        self.straddle_scroll(mmio, armed);
        self.prologue_scroll(mmio);
    }

    pub(crate) fn mode3_fetch_step(
        &mut self,
        mmio: &Mmio,
        cadence_even: bool,
        fetcher_lcdc_state: FetcherLcdcState,
        pending_discard: u8,
    ) -> (r: bool)
        requires
            old(self).wf(),
            old(self)@.in_range(),
        ensures
            final(self).wf(),
            final(self)@.in_range(),
            (final(self)@, r) == old(self)@.fetch_step(
                *mmio,
                cadence_even,
                fetcher_lcdc_state,
                pending_discard,
            ),
    {
        reveal(PpuView::fetch_step);
        if !cadence_even {
            return false;
        }
        let pos = self.fetch_pos(pending_discard);
        let event: FetcherDebugEvent = match self.fetcher.step(mmio, fetcher_lcdc_state, pos) {
            Some(e) => e,
            None => {
                return false;
            },
        };
        assert(event.fifo_size <= 16);
        self.note_tile_number(&event);
        let pushed = event.kind == FetcherDebugEventKind::PushToFifo;
        if pushed {
            self.after_push(mmio, &event, pending_discard);
        }
        self.record_fetch_debug_event(event, mmio);
        pushed
    }
}

/// A dot between two fetch steps does nothing.
pub proof fn law_odd_dots_do_not_fetch(
    s: PpuView,
    m: Mmio,
    fls: FetcherLcdcState,
    pending_discard: u8,
)
    ensures
        s.fetch_step(m, false, fls, pending_discard) == (s, false),
{
    reveal(PpuView::fetch_step);
}

} // verus!
