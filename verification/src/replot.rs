//! Tiles that were read while writes to the tile data select came in a train,
//! on CGB hardware without CGB mode.
//!
//! A fetch cannot know the writes to come that reach the bus before its dot on
//! the grid. At the end of the line all of them are known: every tile that was
//! captured is resolved once more, and columns that turn out otherwise are put
//! into the picture again.

use vstd::prelude::*;

use crate::fetcher::{row_colors, tile_data_address};
use crate::frames::FramesView;
use crate::glitch::{bus_at, bus_value, grid_shift, grid_shift_exec};
use crate::journal::CapturedTile;
use crate::mmio::Mmio;
use crate::regs::{lcdc_has, LCDCFlags, CLOCK_LIMIT, FRAMEBUFFER_SIZE};
use crate::sgb_picture::row_bit_exec;
use crate::state::{Ppu, PpuView};

verus! {

/// An LCDC value with the given tile data select bit.
#[verifier::allow_in_spec]
pub fn with_select(select: bool) -> u8
    returns
        (if select { LCDCFlags::BGWindowTileDataSelect.mask() } else { 0u8 }),
{
    if select { LCDCFlags::BGWindowTileDataSelect.mask() } else { 0 }
}

impl CapturedTile {
    /// The screen column of the tile's pixel `i`.
    pub open spec fn column(self, i: int) -> int {
        self.first_x + i - self.lead
    }

    /// The tile was fetched for column `col`.
    pub open spec fn covers(self, col: int) -> bool {
        self.column(0) <= col < self.column(8)
    }

    /// The tile's colour indices, its two bytes read with the given tile data
    /// select bits.
    pub open spec fn colors(self, m: Mmio, low: bool, high: bool) -> Seq<u8> {
        let line = (self.y % 8) as u8;
        row_colors(
            m.read_vram_bank(0, tile_data_address(self.tn, line, with_select(low)) as u16),
            m.read_vram_bank(0, (tile_data_address(self.tn, line, with_select(high)) + 1) as u16),
            false,
        )
    }
}

/// One of the tiles was fetched for column `col`.
pub open spec fn any_covers(tiles: Seq<CapturedTile>, col: int) -> bool {
    exists|k: int| 0 <= k < tiles.len() && (#[trigger] tiles[k]).covers(col)
}

impl PpuView {
    /// The tile data select bit on the bus in step `step` of tile `n`, on the
    /// grid that starts at `anchor`.
    pub open spec fn select_on_grid(self, anchor: int, n: u8, step: int) -> bool {
        let h = anchor + 8 * n + 2 * step + grid_shift(
            self.line,
            n as int,
            self.line.sprites.len() as int,
        );
        lcdc_has(
            bus_at(self.journal.wg_hist, h, self.lcdc.reg).0,
            LCDCFlags::BGWindowTileDataSelect,
        )
    }

    /// The select bits of a background tile's two bytes, each on its own dot.
    pub open spec fn bg_selects(self, t: CapturedTile) -> (bool, bool) {
        match self.wg.bg_anchor_cc {
            Some(anchor) => (
                self.select_on_grid(anchor as int, t.n, 1),
                self.select_on_grid(anchor as int, t.n, 2),
            ),
            None => (t.live_low_tds, t.live_high_tds),
        }
    }

    /// The select bits of a window tile: one for both bytes. Only a tile whose
    /// bytes were read with different ones is resolved again.
    pub open spec fn win_selects(self, t: CapturedTile) -> (bool, bool) {
        if t.live_low_tds == t.live_high_tds {
            (t.live_low_tds, t.live_high_tds)
        } else {
            match self.wg.wg_anchor_cc {
                Some(anchor) => {
                    let select = self.select_on_grid(anchor + self.wg.wg_dpre, t.n, 1);
                    (select, select)
                },
                None => (t.live_low_tds, t.live_low_tds),
            }
        }
    }

    /// A window tile was fetched for column `col`, and drawn over what the
    /// background had there.
    pub open spec fn window_took(self, col: int) -> bool {
        any_covers(self.journal.win_tiles, col)
    }

    /// The background shows in column `col`, with another colour index than
    /// `idx`.
    pub open spec fn shows_other(self, col: int, idx: u8) -> bool {
        0 <= col < 160 && col < self.hist.line_bg_idx.len() && self.hist.line_bg_idx[col] >= 0
            && self.hist.line_bg_idx[col] != idx
    }

    /// The picture `f` with the first `n` pixels of a tile put in again, where
    /// they turned out otherwise.
    pub open spec fn with_pixels(
        self,
        f: FramesView,
        m: Mmio,
        t: CapturedTile,
        colors: Seq<u8>,
        window: bool,
        n: int,
    ) -> FramesView
        decreases n,
    {
        if n <= 0 {
            f
        } else {
            let g = self.with_pixels(f, m, t, colors, window, n - 1);
            let col = t.column(n - 1);
            if self.shows_other(col, colors[n - 1]) && (window || !self.window_took(col)) {
                g.with_rgb(m.ly * 160 + col, self.compat_bg_color(m, colors[n - 1]))
            } else {
                g
            }
        }
    }

    /// The picture after the first `n` background tiles were resolved again.
    pub open spec fn bg_replotted(self, m: Mmio, n: int) -> FramesView
        decreases n,
    {
        if n <= 0 {
            self.frames
        } else {
            let t = self.journal.bg_tiles[n - 1];
            let (low, high) = self.bg_selects(t);
            self.with_pixels(
                self.bg_replotted(m, n - 1),
                m,
                t,
                t.colors(m, low, high),
                false,
                8,
            )
        }
    }

    /// The same after the first `n` window tiles, on top of the background's.
    pub open spec fn win_replotted(self, m: Mmio, n: int) -> FramesView
        decreases n,
    {
        if n <= 0 {
            self.bg_replotted(m, self.journal.bg_tiles.len() as int)
        } else {
            let t = self.journal.win_tiles[n - 1];
            let (low, high) = self.win_selects(t);
            self.with_pixels(
                self.win_replotted(m, n - 1),
                m,
                t,
                t.colors(m, low, high),
                true,
                8,
            )
        }
    }

    /// The line's captured tiles resolved against all of its writes.
    #[verifier::opaque]
    pub open spec fn replot_trains(self, m: Mmio) -> PpuView {
        if !self.wg.wg_cgb {
            self
        } else {
            PpuView {
                frames: self.win_replotted(m, self.journal.win_tiles.len() as int),
                ..self
            }
        }
    }
}

fn tile_colors(tile: &CapturedTile, mmio: &Mmio, low: bool, high: bool) -> (r: [u8; 8])
    ensures
        r@ == tile.colors(*mmio, low, high),
        forall|i: int| 0 <= i < 8 ==> #[trigger] r[i] < 4,
{
    let line: u8 = tile.y % 8;
    let low_byte: u8 = mmio.read_vram_bank(0, tile_address(tile.tn, line, low));
    let high_byte: u8 = mmio.read_vram_bank(0, tile_address(tile.tn, line, high) + 1);
    let mut out: [u8; 8] = [0; 8];
    let mut i: usize = 0;
    while i < 8
        invariant
            i <= 8,
            forall|k: int|
                0 <= k < i ==> #[trigger] out[k] == row_colors(low_byte, high_byte, false)[k],
            forall|k: int| 0 <= k < i ==> #[trigger] out[k] < 4,
        decreases 8 - i,
    {
        let hi: u8 = row_bit_exec(high_byte, i as u8, false);
        let lo: u8 = row_bit_exec(low_byte, i as u8, false);
        proof {
            let bit = (7 - i) as u8;
            assert(((high_byte >> bit) & 1) << 1 | ((low_byte >> bit) & 1) < 4) by (bit_vector);
        }
        out[i] = (hi << 1) | lo;
        i += 1;
    }
    assert(out@ =~= tile.colors(*mmio, low, high));
    out
}

fn tile_address(tn: u8, line: u8, select: bool) -> (r: u16)
    requires
        line < 8,
    ensures
        r == tile_data_address(tn, line, with_select(select)),
        0x8000 <= r <= 0x9FFE,
{
    proof {
        lemma_select(select);
    }
    if select {
        0x8000 + tn as u16 * 16 + line as u16 * 2
    } else if tn < 128 {
        0x9000 + tn as u16 * 16 + line as u16 * 2
    } else {
        0x9000 - (256 - tn as u16) * 16 + line as u16 * 2
    }
}

proof fn lemma_select(select: bool)
    ensures
        lcdc_has(with_select(select), LCDCFlags::BGWindowTileDataSelect) == select,
{
    assert(0x10u8 & 0x10u8 != 0u8 && 0u8 & 0x10u8 == 0u8) by (bit_vector);
}

/// Resolving tiles again changes the picture and nothing else.
pub proof fn law_replot_changes_the_picture_alone(s: PpuView, m: Mmio)
    ensures
        s.replot_trains(m) == (PpuView { frames: s.replot_trains(m).frames, ..s }),
{
    reveal(PpuView::replot_trains);
}

/// Without captured tiles, and outside the DMG mode of CGB hardware, there is
/// nothing to resolve again.
pub proof fn law_no_train_no_replot(s: PpuView, m: Mmio)
    requires
        !s.wg.wg_cgb || (s.journal.bg_tiles.len() == 0 && s.journal.win_tiles.len() == 0),
    ensures
        s.replot_trains(m) == s,
{
    reveal(PpuView::replot_trains);
}

/// Pixel `at` of the picture is one that resolving again may change: on line
/// `ly`, where the background shows.
pub open spec fn may_change(s: PpuView, ly: u8, at: int) -> bool {
    at / 160 == ly && at % 160 < s.hist.line_bg_idx.len() && s.hist.line_bg_idx[at % 160] >= 0
}

proof fn lemma_rgb_spares(f: FramesView, put: int, rgb: (u8, u8, u8), at: int, c: int)
    requires
        f.wf(),
        0 <= put < FRAMEBUFFER_SIZE,
        0 <= at < FRAMEBUFFER_SIZE,
        put != at,
        0 <= c < 3,
    ensures
        f.with_rgb(put, rgb).wf(),
        f.with_rgb(put, rgb).color_fb_a[3 * at + c] == f.color_fb_a[3 * at + c],
{
}

proof fn lemma_pixels_spare(
    s: PpuView,
    f: FramesView,
    m: Mmio,
    t: CapturedTile,
    colors: Seq<u8>,
    window: bool,
    n: int,
    at: int,
    c: int,
)
    requires
        0 <= at < FRAMEBUFFER_SIZE,
        0 <= c < 3,
        m.ly < 144,
        !may_change(s, m.ly, at),
        f.wf(),
    ensures
        s.with_pixels(f, m, t, colors, window, n).color_fb_a[3 * at + c] == f.color_fb_a[3 * at
            + c],
        s.with_pixels(f, m, t, colors, window, n).wf(),
        s.with_pixels(f, m, t, colors, window, n) == (FramesView {
            color_fb_a: s.with_pixels(f, m, t, colors, window, n).color_fb_a,
            ..f
        }),
    decreases n,
{
    if n > 0 {
        lemma_pixels_spare(s, f, m, t, colors, window, n - 1, at, c);
        let col = t.column(n - 1);
        if s.shows_other(col, colors[n - 1]) {
            let put = m.ly * 160 + col;
            assert(put / 160 == m.ly && put % 160 == col);
            lemma_rgb_spares(
                s.with_pixels(f, m, t, colors, window, n - 1),
                put,
                s.compat_bg_color(m, colors[n - 1]),
                at,
                c,
            );
        }
    }
}

/// Resolving again leaves alone what objects show, every other line, and the
/// shades.
pub proof fn law_replot_spares_objects(s: PpuView, m: Mmio, at: int, c: int)
    requires
        0 <= at < FRAMEBUFFER_SIZE,
        0 <= c < 3,
        m.ly < 144,
        !may_change(s, m.ly, at),
        s.frames.wf(),
    ensures
        s.replot_trains(m).frames.wf(),
        s.replot_trains(m).frames.color_fb_a[3 * at + c] == s.frames.color_fb_a[3 * at + c],
        s.replot_trains(m).frames == (FramesView {
            color_fb_a: s.replot_trains(m).frames.color_fb_a,
            ..s.frames
        }),
{
    reveal(PpuView::replot_trains);
    lemma_bg_spares(s, m, s.journal.bg_tiles.len() as int, at, c);
    lemma_win_spares(s, m, s.journal.win_tiles.len() as int, at, c);
}

proof fn lemma_bg_spares(s: PpuView, m: Mmio, n: int, at: int, c: int)
    requires
        0 <= at < FRAMEBUFFER_SIZE,
        0 <= c < 3,
        m.ly < 144,
        !may_change(s, m.ly, at),
        s.frames.wf(),
    ensures
        s.bg_replotted(m, n).wf(),
        s.bg_replotted(m, n).color_fb_a[3 * at + c] == s.frames.color_fb_a[3 * at + c],
        s.bg_replotted(m, n) == (FramesView {
            color_fb_a: s.bg_replotted(m, n).color_fb_a,
            ..s.frames
        }),
    decreases n,
{
    if n > 0 {
        lemma_bg_spares(s, m, n - 1, at, c);
        let t = s.journal.bg_tiles[n - 1];
        let (low, high) = s.bg_selects(t);
        lemma_pixels_spare(
            s,
            s.bg_replotted(m, n - 1),
            m,
            t,
            t.colors(m, low, high),
            false,
            8,
            at,
            c,
        );
    }
}

proof fn lemma_win_spares(s: PpuView, m: Mmio, n: int, at: int, c: int)
    requires
        0 <= at < FRAMEBUFFER_SIZE,
        0 <= c < 3,
        m.ly < 144,
        !may_change(s, m.ly, at),
        s.frames.wf(),
    ensures
        s.win_replotted(m, n).wf(),
        s.win_replotted(m, n).color_fb_a[3 * at + c] == s.frames.color_fb_a[3 * at + c],
        s.win_replotted(m, n) == (FramesView {
            color_fb_a: s.win_replotted(m, n).color_fb_a,
            ..s.frames
        }),
    decreases n,
{
    if n > 0 {
        lemma_win_spares(s, m, n - 1, at, c);
        let t = s.journal.win_tiles[n - 1];
        let (low, high) = s.win_selects(t);
        lemma_pixels_spare(
            s,
            s.win_replotted(m, n - 1),
            m,
            t,
            t.colors(m, low, high),
            true,
            8,
            at,
            c,
        );
    } else {
        lemma_bg_spares(s, m, s.journal.bg_tiles.len() as int, at, c);
    }
}

/// What is put in again does not depend on the picture so far.
proof fn lemma_pixels_same(
    a: PpuView,
    b: PpuView,
    f: FramesView,
    m: Mmio,
    t: CapturedTile,
    colors: Seq<u8>,
    window: bool,
    n: int,
)
    requires
        a == (PpuView { frames: a.frames, ..b }),
    ensures
        a.with_pixels(f, m, t, colors, window, n) == b.with_pixels(f, m, t, colors, window, n),
    decreases n,
{
    if n > 0 {
        lemma_pixels_same(a, b, f, m, t, colors, window, n - 1);
        assert(a.window_took(t.column(n - 1)) == b.window_took(t.column(n - 1)));
        assert(a.compat_bg_color(m, colors[n - 1]) == b.compat_bg_color(m, colors[n - 1]));
    }
}

impl Ppu {
    fn select_on_grid(&self, anchor: u64, n: u8, step: u64) -> (r: bool)
        requires
            self@.wf(),
            anchor < 2 * CLOCK_LIMIT,
            step <= 2,
        ensures
            r == self@.select_on_grid(anchor as int, n, step as int),
    {
        let h: u64 = anchor + 8 * n as u64 + 2 * step + grid_shift_exec(&self.line, n);
        let (v, _old): (u8, Option<u8>) = bus_value(self.journal.wg_hist(), h, self.lcdc.reg);
        lcdc_has(v, LCDCFlags::BGWindowTileDataSelect)
    }

    fn bg_selects(&self, t: &CapturedTile) -> (r: (bool, bool))
        requires
            self@.wf(),
            self@.in_range(),
        ensures
            r == self@.bg_selects(*t),
    {
        match self.wg.bg_anchor_cc {
            Some(anchor) => (
                self.select_on_grid(anchor, t.n, 1),
                self.select_on_grid(anchor, t.n, 2),
            ),
            None => (t.live_low_tds, t.live_high_tds),
        }
    }

    fn win_selects(&self, t: &CapturedTile) -> (r: (bool, bool))
        requires
            self@.wf(),
            self@.in_range(),
        ensures
            r == self@.win_selects(*t),
    {
        if t.live_low_tds == t.live_high_tds {
            return (t.live_low_tds, t.live_high_tds);
        }
        match self.wg.wg_anchor_cc {
            Some(anchor) => {
                let select = self.select_on_grid(anchor + self.wg.wg_dpre, t.n, 1);
                (select, select)
            },
            None => (t.live_low_tds, t.live_low_tds),
        }
    }

    fn window_took(&self, col: i32) -> (r: bool)
        requires
            -1000 < col < 1000,
        ensures
            r == self@.window_took(col as int),
    {
        let tiles: &Vec<CapturedTile> = self.journal.win_tiles();
        let mut k: usize = 0;
        while k < tiles.len()
            invariant
                tiles@ == self@.journal.win_tiles,
                k <= tiles@.len(),
                -1000 < col < 1000,
                forall|j: int| 0 <= j < k ==> !(#[trigger] tiles@[j]).covers(col as int),
            decreases tiles@.len() - k,
        {
            let start: i32 = tiles[k].first_x as i32 - tiles[k].lead as i32;
            if start <= col && col < start + 8 {
                assert(tiles@[k as int].covers(col as int));
                return true;
            }
            k += 1;
        }
        false
    }

    fn put_pixels(&mut self, mmio: &Mmio, t: &CapturedTile, colors: &[u8; 8], window: bool)
        requires
            old(self).wf(),
            mmio.wf(),
            mmio.ly < 144,
            forall|i: int| 0 <= i < 8 ==> #[trigger] colors[i] < 4,
        ensures
            final(self).wf(),
            final(self)@ == (PpuView {
                frames: old(self)@.with_pixels(
                    old(self)@.frames,
                    *mmio,
                    *t,
                    colors@,
                    window,
                    8,
                ),
                ..old(self)@
            }),
    {
        let mut i: usize = 0;
        while i < 8
            invariant
                i <= 8,
                self.wf(),
                mmio.wf(),
                mmio.ly < 144,
                forall|k: int| 0 <= k < 8 ==> #[trigger] colors[k] < 4,
                self@ == (PpuView { frames: self@.frames, ..old(self)@ }),
                self@.frames == old(self)@.with_pixels(
                    old(self)@.frames,
                    *mmio,
                    *t,
                    colors@,
                    window,
                    i as int,
                ),
            decreases 8 - i,
        {
            let col: i32 = t.first_x as i32 + i as i32 - t.lead as i32;
            assert(self@.window_took(col as int) == old(self)@.window_took(col as int));
            assert(self@.compat_bg_color(*mmio, colors[i as int])
                == old(self)@.compat_bg_color(*mmio, colors[i as int]));
            if 0 <= col && col < 160 {
                let shown: i8 = self.hist.bg_idx(col as u8);
                if shown >= 0 && shown != colors[i] as i8 && (window || !self.window_took(col)) {
                    let rgb: (u8, u8, u8) = self.compat_bg_color(mmio, colors[i]);
                    self.frames.put_rgb(mmio.ly as usize * 160 + col as usize, rgb);
                }
            }
            i += 1;
        }
    }

    /// Resolves the line's captured tiles against all of its writes.
    pub(crate) fn replot_trains(&mut self, mmio: &Mmio)
        requires
            old(self).wf(),
            old(self)@.in_range(),
            mmio.wf(),
            mmio.ly < 144,
        ensures
            final(self).wf(),
            final(self)@ == old(self)@.replot_trains(*mmio),
            final(self)@ == (PpuView { frames: final(self)@.frames, ..old(self)@ }),
            final(self)@.in_range(),
    {
        reveal(PpuView::replot_trains);
        if !self.wg.wg_cgb {
            return;
        }
        let mut i: usize = 0;
        while i < self.journal.bg_tiles().len()
            invariant
                self.wf(),
                self@.in_range(),
                mmio.wf(),
                mmio.ly < 144,
                i <= old(self)@.journal.bg_tiles.len(),
                self@ == (PpuView { frames: self@.frames, ..old(self)@ }),
                self@.frames == old(self)@.bg_replotted(*mmio, i as int),
            decreases old(self)@.journal.bg_tiles.len() - i,
        {
            let t: CapturedTile = self.journal.bg_tiles()[i];
            let (low, high): (bool, bool) = self.bg_selects(&t);
            let colors: [u8; 8] = tile_colors(&t, mmio, low, high);
            proof {
                lemma_pixels_same(
                    self@,
                    old(self)@,
                    self@.frames,
                    *mmio,
                    t,
                    colors@,
                    false,
                    8,
                );
            }
            self.put_pixels(mmio, &t, &colors, false);
            i += 1;
        }
        let mut k: usize = 0;
        while k < self.journal.win_tiles().len()
            invariant
                self.wf(),
                self@.in_range(),
                mmio.wf(),
                mmio.ly < 144,
                k <= old(self)@.journal.win_tiles.len(),
                self@ == (PpuView { frames: self@.frames, ..old(self)@ }),
                self@.frames == old(self)@.win_replotted(*mmio, k as int),
            decreases old(self)@.journal.win_tiles.len() - k,
        {
            let t: CapturedTile = self.journal.win_tiles()[k];
            let (low, high): (bool, bool) = self.win_selects(&t);
            let colors: [u8; 8] = tile_colors(&t, mmio, low, high);
            proof {
                lemma_pixels_same(
                    self@,
                    old(self)@,
                    self@.frames,
                    *mmio,
                    t,
                    colors@,
                    true,
                    8,
                );
            }
            self.put_pixels(mmio, &t, &colors, true);
            k += 1;
        }
    }
}

} // verus!
