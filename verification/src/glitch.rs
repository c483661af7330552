//! Register writes that meet a fetch on the video memory bus.
//!
//! The fetches of a line lie on a grid of their own: eight dots a tile, two a
//! step, moved by the objects that were fetched before. A fetch sees the
//! registers as the bus had them on its grid dot, and on the very dot of a
//! change it sees both values at once.

use vstd::prelude::*;

use crate::color::bgp_shade;
use crate::fetcher::{FetcherLcdcState, FetcherView};
use crate::frames::FramesView;
use crate::line_objs::{LineObjs, LineObjsView};
use crate::mmio::Mmio;
use crate::objects::SpriteFetchPhase;
use crate::regs::CLOCK_LIMIT;
use crate::state::{BusGlitch, Ppu, PpuView};

verus! {

/// LCDC bits that the window's fetches look at: map and tile data select.
pub const WG_WINDOW_BITS: u8 = 0x50;
/// LCDC bits that the background's fetches look at.
pub const WG_BG_BITS: u8 = 0x18;
/// Writes closer together than this collide on the palette bus.
pub const BGP_SPIKE_CADENCE_CC: u64 = 12;

/// How many entries from `n` on lie at or before clock reading `h`.
pub open spec fn bus_reached(hist: Seq<(u64, u8, u8)>, h: int, n: int) -> int
    decreases hist.len() - n,
{
    if 0 <= n < hist.len() && hist[n].0 <= h {
        bus_reached(hist, h, n + 1)
    } else {
        n
    }
}

/// The register's value on the bus at `h`, and the old value beside it on the
/// very dot of a change.
pub open spec fn bus_at(hist: Seq<(u64, u8, u8)>, h: int, live: u8) -> (u8, Option<u8>) {
    let n = bus_reached(hist, h, 0);
    if hist.len() == 0 {
        (live, None)
    } else if n == 0 {
        (hist[0].1, None)
    } else if hist[n - 1].0 == h {
        (hist[n - 1].2, Some(hist[n - 1].1))
    } else {
        (hist[n - 1].2, None)
    }
}

/// `live` with the bits of `mask` taken from `v`.
#[verifier::allow_in_spec]
pub fn take_bits(live: u8, v: u8, mask: u8) -> u8
    returns
        (live & !mask) | (v & mask),
{
    (live & !mask) | (v & mask)
}

/// The fetch's LCDC with the bits of `mask` as the bus had them at `h`.
pub open spec fn with_bus(
    fls: FetcherLcdcState,
    hist: Seq<(u64, u8, u8)>,
    h: int,
    mask: u8,
) -> FetcherLcdcState {
    let (v, old_v) = bus_at(hist, h, fls.lcdc);
    FetcherLcdcState {
        lcdc: take_bits(fls.lcdc, v, mask),
        or_lcdc: match old_v {
            Some(o) => Some(take_bits(fls.lcdc, o, mask)),
            None => None,
        },
        ..fls
    }
}

/// Dots by which the first `n` objects move the grid of tile `tile`: a fetched
/// object moves the tiles from the second after its own on.
pub open spec fn grid_shift(line: LineObjsView, tile: int, n: int) -> int
    decreases n,
{
    if n <= 0 {
        0
    } else {
        let s = line.sprites[n - 1];
        grid_shift(line, tile, n - 1) + match line.rec(n - 1) {
            Some(r) if r.phase == SpriteFetchPhase::Fetched && s.x >= 8 && tile >= (s.x - 8) / 8
                + 2 => r.penalty as int,
            _ => 0,
        }
    }
}

/// Objects that were fetched, among the first `n`.
pub open spec fn fetched_count(line: LineObjsView, n: int) -> int
    decreases n,
{
    if n <= 0 {
        0
    } else {
        fetched_count(line, n - 1) + match line.rec(n - 1) {
            Some(r) if r.phase == SpriteFetchPhase::Fetched => 1int,
            _ => 0,
        }
    }
}

/// The last fetched object among the first `n`.
pub open spec fn last_fetched(line: LineObjsView, n: int) -> int
    decreases n,
{
    if n <= 0 {
        -1
    } else {
        match line.rec(n - 1) {
            Some(r) if r.phase == SpriteFetchPhase::Fetched => n - 1,
            _ => last_fetched(line, n - 1),
        }
    }
}

/// Dots by which an object hanging over the left edge at X `x` holds up the
/// window's grid.
pub open spec fn pre_window_delay(x: u8) -> int {
    let d = 13 - 2 * ((x + 1) / 2);
    if d < 7 { 7 } else { d }
}

impl PpuView {
    /// The grid dot of the fetcher's present step, counted from `anchor`.
    pub open spec fn grid_dot(self, anchor: int) -> int {
        anchor + 8 * self.fetcher.tile_index + 2 * self.fetcher.substep() + grid_shift(
            self.line,
            self.fetcher.tile_index as int,
            self.line.sprites.len() as int,
        )
    }

    /// What a window fetch sees.
    #[verifier::opaque]
    pub open spec fn wg_apply(self, fls: FetcherLcdcState) -> FetcherLcdcState {
        match self.wg.wg_anchor_cc {
            Some(anchor) if self.fetcher.fetching_window && !self.wg.wg_cgb
                && self.journal.wg_hist.len() > 0 => with_bus(
                fls,
                self.journal.wg_hist,
                self.grid_dot(anchor + self.wg.wg_dpre),
                WG_WINDOW_BITS,
            ),
            _ => fls,
        }
    }

    /// What a background fetch sees.
    #[verifier::opaque]
    pub open spec fn bg_wg_apply(self, fls: FetcherLcdcState) -> FetcherLcdcState {
        match self.wg.bg_anchor_cc {
            Some(anchor) if !self.fetcher.fetching_window && !self.wg.wg_cgb => {
                let h = self.grid_dot(anchor as int);
                let scy = self.journal.bg_scy_hist;
                let scx = self.journal.bg_scx_hist;
                let f = if self.journal.wg_hist.len() > 0 {
                    with_bus(fls, self.journal.wg_hist, h, WG_BG_BITS)
                } else {
                    fls
                };
                FetcherLcdcState {
                    scy_bus: if scy.len() > 0 { Some(bus_at(scy, h, 0).0) } else { fls.scy_bus },
                    scx_bus: if scx.len() > 0 { Some(bus_at(scx, h, 0).0) } else { fls.scx_bus },
                    ..f
                }
            },
            _ => fls,
        }
    }

    /// The reads already made of the background tile in flight, made again
    /// with the writes that are known now.
    #[verifier::opaque]
    pub open spec fn bg_retro_repair(self, m: Mmio) -> FetcherView {
        match self.wg.bg_anchor_cc {
            Some(anchor) if !self.fetcher.fetching_window && !self.wg.wg_cgb => {
                let h = anchor + 8 * self.fetcher.tile_index + grid_shift(
                    self.line,
                    self.fetcher.tile_index as int,
                    self.line.sprites.len() as int,
                );
                let fls = plain_bus(self.lcdc.reg);
                self.fetcher.repaired(
                    m,
                    with_bus(fls, self.journal.wg_hist, h, WG_BG_BITS),
                    with_bus(fls, self.journal.wg_hist, h + 2, WG_BG_BITS),
                    with_bus(fls, self.journal.wg_hist, h + 4, WG_BG_BITS),
                )
            },
            _ => self.fetcher,
        }
    }

    /// The window's grid starts here. It is known for a window at the left
    /// edge with at most one object before it, hanging over that edge.
    #[verifier::opaque]
    pub open spec fn wg_set_anchor(self, chop: int) -> BusGlitch {
        let n = self.line.sprites.len() as int;
        let count = fetched_count(self.line, n);
        let k = last_fetched(self.line, n);
        let x = self.line.sprites[k].x;
        if self.x != 0 || count > 1 || (count == 1 && x > 7) {
            BusGlitch { wg_anchor_cc: None, wg_dpre: 0, ..self.wg }
        } else if count == 0 {
            BusGlitch {
                wg_anchor_cc: Some(clock_back(self.clk.abs_cc, chop)),
                wg_dpre: 0,
                ..self.wg
            }
        } else {
            BusGlitch {
                wg_anchor_cc: Some(
                    clock_back(self.clk.abs_cc, chop + self.line.rec(k)->0.penalty),
                ),
                wg_dpre: pre_window_delay(x) as u64,
                ..self.wg
            }
        }
    }

    /// BGP write `i` has a neighbour close enough to collide with.
    pub open spec fn bgp_write_collides(self, i: int) -> bool {
        let w = self.hist.bgp_writes;
        (i > 0 && w[i].0 - w[i - 1].0 <= BGP_SPIKE_CADENCE_CC) || (i + 1 < w.len() && w[i + 1].0
            - w[i].0 <= BGP_SPIKE_CADENCE_CC)
    }

    /// The picture after the first `n` BGP writes have left their marks: the
    /// pixel on which a colliding write lands shows old and new palette ORed.
    pub open spec fn bgp_spikes(self, ly: u8, n: int) -> FramesView
        decreases n,
    {
        if n <= 0 {
            self.frames
        } else {
            let f = self.bgp_spikes(ly, n - 1);
            let (cc, col, merged) = self.hist.bgp_writes[n - 1];
            if self.bgp_write_collides(n - 1) && col < 160 && col < self.hist.line_bg_idx.len()
                && self.hist.line_bg_idx[col as int] >= 0 {
                f.with_shade(
                    ly * 160 + col,
                    bgp_shade(merged, self.hist.line_bg_idx[col as int] as u8),
                )
            } else {
                f
            }
        }
    }

    /// The marks of the line's BGP writes; only DMG hardware has them.
    #[verifier::opaque]
    pub open spec fn resolve_bgp_spikes(self, m: Mmio) -> FramesView {
        if m.is_cgb() {
            self.frames
        } else {
            self.bgp_spikes(m.ly, self.hist.bgp_writes.len() as int)
        }
    }
}

/// A clock reading some cycles back, not before the start.
pub open spec fn clock_back(cc: u64, by: int) -> u64 {
    if cc < by { 0 } else { (cc - by) as u64 }
}

/// A bus on which nothing changes.
#[verifier::allow_in_spec]
pub fn plain_bus(lcdc: u8) -> FetcherLcdcState
    returns
        (FetcherLcdcState {
            lcdc,
            cgb_tile_index_is_tile_data: false,
            or_lcdc: None,
            scy_bus: None,
            scx_bus: None,
        }),
{
    FetcherLcdcState {
        lcdc,
        cgb_tile_index_is_tile_data: false,
        or_lcdc: None,
        scy_bus: None,
        scx_bus: None,
    }
}

pub(crate) fn bus_value(hist: &Vec<(u64, u8, u8)>, h: u64, live: u8) -> (r: (u8, Option<u8>))
    ensures
        r == bus_at(hist@, h as int, live),
{
    if hist.len() == 0 {
        return (live, None);
    }
    let mut i: usize = 0;
    while i < hist.len() && hist[i].0 <= h
        invariant
            i <= hist@.len(),
            bus_reached(hist@, h as int, 0) == bus_reached(hist@, h as int, i as int),
        decreases hist@.len() - i,
    {
        i += 1;
    }
    if i == 0 {
        (hist[0].1, None)
    } else {
        let (t, old_v, new_v): (u64, u8, u8) = hist[i - 1];
        if t == h { (new_v, Some(old_v)) } else { (new_v, None) }
    }
}

fn with_bus_exec(
    fls: FetcherLcdcState,
    hist: &Vec<(u64, u8, u8)>,
    h: u64,
    mask: u8,
) -> (r: FetcherLcdcState)
    ensures
        r == with_bus(fls, hist@, h as int, mask),
{
    let (v, old_v): (u8, Option<u8>) = bus_value(hist, h, fls.lcdc);
    FetcherLcdcState {
        lcdc: take_bits(fls.lcdc, v, mask),
        or_lcdc: match old_v {
            Some(o) => Some(take_bits(fls.lcdc, o, mask)),
            None => None,
        },
        ..fls
    }
}

pub(crate) fn grid_shift_exec(line: &LineObjs, tile: u8) -> (r: u64)
    requires
        line@.wf(),
    ensures
        r == grid_shift(line@, tile as int, line@.sprites.len() as int),
        r <= 2550,
{
    let mut sum: u64 = 0;
    let mut i: usize = 0;
    while i < line.count()
        invariant
            line@.wf(),
            i <= line@.sprites.len(),
            sum == grid_shift(line@, tile as int, i as int),
            sum <= 255 * i,
        decreases line@.sprites.len() - i,
    {
        let x: u8 = line.sprite(i).x;
        if let Some(rec) = line.rec(i) {
            if rec.phase == SpriteFetchPhase::Fetched && x >= 8 && tile >= (x - 8) / 8 + 2 {
                sum += rec.penalty as u64;
            }
        }
        i += 1;
    }
    sum
}

impl Ppu {
    fn grid_dot(&self, anchor: u64) -> (r: u64)
        requires
            self@.wf(),
            anchor < 2 * CLOCK_LIMIT,
        ensures
            r == self@.grid_dot(anchor as int),
    {
        let tile: u8 = self.fetcher.get_tile_index();
        anchor + 8 * tile as u64 + 2 * self.fetcher.fetch_substep() as u64 + grid_shift_exec(
            &self.line,
            tile,
        )
    }

    pub fn wg_apply(&self, fls: FetcherLcdcState) -> (r: FetcherLcdcState)
        requires
            self@.wf(),
            self@.in_range(),
        ensures
            r == self@.wg_apply(fls),
    {
        reveal(PpuView::wg_apply);
        if let Some(anchor) = self.wg.wg_anchor_cc {
            if self.fetcher.is_fetching_window() && !self.wg.wg_cgb && self.journal.wg_hist().len()
                > 0 {
                let h: u64 = self.grid_dot(anchor + self.wg.wg_dpre);
                return with_bus_exec(fls, self.journal.wg_hist(), h, WG_WINDOW_BITS);
            }
        }
        fls
    }

    pub fn bg_wg_apply(&self, fls: FetcherLcdcState) -> (r: FetcherLcdcState)
        requires
            self@.wf(),
            self@.in_range(),
        ensures
            r == self@.bg_wg_apply(fls),
    {
        reveal(PpuView::bg_wg_apply);
        if let Some(anchor) = self.wg.bg_anchor_cc {
            if !self.fetcher.is_fetching_window() && !self.wg.wg_cgb {
                let h: u64 = self.grid_dot(anchor);
                let f: FetcherLcdcState = if self.journal.wg_hist().len() > 0 {
                    with_bus_exec(fls, self.journal.wg_hist(), h, WG_BG_BITS)
                } else {
                    fls
                };
                let scy_bus: Option<u8> = if self.journal.scy_hist().len() > 0 {
                    Some(bus_value(self.journal.scy_hist(), h, 0).0)
                } else {
                    fls.scy_bus
                };
                let scx_bus: Option<u8> = if self.journal.scx_hist().len() > 0 {
                    Some(bus_value(self.journal.scx_hist(), h, 0).0)
                } else {
                    fls.scx_bus
                };
                return FetcherLcdcState { scy_bus, scx_bus, ..f };
            }
        }
        fls
    }

    pub(crate) fn bg_retro_repair(&mut self, mmio: &Mmio)
        requires
            old(self).wf(),
            old(self)@.in_range(),
        ensures
            final(self).wf(),
            final(self)@ == (PpuView {
                fetcher: old(self)@.bg_retro_repair(*mmio),
                ..old(self)@
            }),
    {
        reveal(PpuView::bg_retro_repair);
        if let Some(anchor) = self.wg.bg_anchor_cc {
            if !self.fetcher.is_fetching_window() && !self.wg.wg_cgb {
                let tile: u8 = self.fetcher.get_tile_index();
                let h: u64 = anchor + 8 * tile as u64 + grid_shift_exec(&self.line, tile);
                let fls: FetcherLcdcState = plain_bus(self.lcdc.reg);
                let hist = self.journal.wg_hist();
                let number: FetcherLcdcState = with_bus_exec(fls, hist, h, WG_BG_BITS);
                let low: FetcherLcdcState = with_bus_exec(fls, hist, h + 2, WG_BG_BITS);
                let high: FetcherLcdcState = with_bus_exec(fls, hist, h + 4, WG_BG_BITS);
                self.fetcher.repair(mmio, number, low, high);
            }
        }
    }

    pub(crate) fn wg_set_anchor(&mut self, chop: u64)
        requires
            old(self).wf(),
            old(self)@.in_range(),
            chop < 256,
        ensures
            final(self).wf(),
            final(self)@.in_range(),
            final(self)@ == (PpuView { wg: old(self)@.wg_set_anchor(chop as int), ..old(self)@ }),
    {
        reveal(PpuView::wg_set_anchor);
        let mut count: usize = 0;
        let mut x: u8 = 0;
        let mut penalty: u64 = 0;
        let mut i: usize = 0;
        while i < self.line.count()
            invariant
                self.wf(),
                i <= self@.line.sprites.len(),
                count == fetched_count(self@.line, i as int),
                count <= i,
                count > 0 ==> 0 <= last_fetched(self@.line, i as int) < i && x
                    == self@.line.sprites[last_fetched(self@.line, i as int)].x && self@.line.rec(
                    last_fetched(self@.line, i as int),
                ) is Some && penalty == self@.line.rec(
                    last_fetched(self@.line, i as int),
                )->0.penalty,
            decreases self@.line.sprites.len() - i,
        {
            if let Some(rec) = self.line.rec(i) {
                if rec.phase == SpriteFetchPhase::Fetched {
                    count += 1;
                    x = self.line.sprite(i).x;
                    penalty = rec.penalty as u64;
                }
            }
            i += 1;
        }
        let cc: u64 = self.clk.abs_cc;
        if self.x != 0 || count > 1 || (count == 1 && x > 7) {
            self.wg = BusGlitch { wg_anchor_cc: None, wg_dpre: 0, ..self.wg };
        } else if count == 0 {
            let at: u64 = if cc < chop { 0 } else { cc - chop };
            self.wg = BusGlitch { wg_anchor_cc: Some(at), wg_dpre: 0, ..self.wg };
        } else {
            let back: u64 = chop + penalty;
            let at: u64 = if cc < back { 0 } else { cc - back };
            let d: u64 = 13 - 2 * ((x as u64 + 1) / 2);
            self.wg = BusGlitch {
                wg_anchor_cc: Some(at),
                wg_dpre: if d < 7 { 7 } else { d },
                ..self.wg
            };
        }
    }

    fn bgp_write_collides(&self, i: usize) -> (r: bool)
        requires
            i < self@.hist.bgp_writes.len(),
        ensures
            r == self@.bgp_write_collides(i as int),
    {
        let cc: u64 = self.hist.bgp_write(i).0;
        if i > 0 {
            let before: u64 = self.hist.bgp_write(i - 1).0;
            if cc <= before || cc - before <= BGP_SPIKE_CADENCE_CC {
                return true;
            }
        }
        if i < self.hist.bgp_write_count() - 1 {
            let after: u64 = self.hist.bgp_write(i + 1).0;
            if after <= cc || after - cc <= BGP_SPIKE_CADENCE_CC {
                return true;
            }
        }
        false
    }

    pub(crate) fn resolve_bgp_spikes(&mut self, mmio: &Mmio)
        requires
            old(self).wf(),
            mmio.ly < 144,
        ensures
            final(self).wf(),
            final(self)@ == (PpuView {
                frames: old(self)@.resolve_bgp_spikes(*mmio),
                ..old(self)@
            }),
    {
        reveal(PpuView::resolve_bgp_spikes);
        if mmio.is_cgb() {
            return;
        }
        let mut i: usize = 0;
        while i < self.hist.bgp_write_count()
            invariant
                self.wf(),
                mmio.ly < 144,
                i <= old(self)@.hist.bgp_writes.len(),
                self@ == (PpuView { frames: self@.frames, ..old(self)@ }),
                self@.frames == old(self)@.bgp_spikes(mmio.ly, i as int),
            decreases old(self)@.hist.bgp_writes.len() - i,
        {
            let (_cc, col, merged): (u64, u8, u8) = self.hist.bgp_write(i);
            assert(self@.bgp_write_collides(i as int) == old(self)@.bgp_write_collides(i as int));
            if self.bgp_write_collides(i) && col < 160 {
                let idx: i8 = self.hist.bg_idx(col);
                if idx >= 0 {
                    let at: usize = mmio.ly as usize * 160 + col as usize;
                    self.frames.put_shade(at, bgp_shade(merged, idx as u8));
                }
            }
            i += 1;
        }
    }
}

/// With no writes on the line a fetch sees the registers as they are.
pub proof fn law_quiet_bus_changes_nothing(s: PpuView, fls: FetcherLcdcState)
    requires
        s.journal.wg_hist.len() == 0,
        s.journal.bg_scy_hist.len() == 0,
        s.journal.bg_scx_hist.len() == 0,
    ensures
        s.wg_apply(fls) == fls,
        s.bg_wg_apply(fls) == fls,
{
    reveal(PpuView::wg_apply);
    reveal(PpuView::bg_wg_apply);
}

/// A lone palette write leaves no mark.
pub proof fn law_lone_palette_write_leaves_no_mark(s: PpuView, m: Mmio)
    requires
        s.hist.bgp_writes.len() <= 1,
    ensures
        s.resolve_bgp_spikes(m) == s.frames,
{
    reveal(PpuView::resolve_bgp_spikes);
    reveal_with_fuel(PpuView::bgp_spikes, 2);
}

/// On DMG hardware the last of two palette writes that collide leaves its mark:
/// its pixel shows the old and the new palette at once.
pub proof fn law_colliding_palette_write_leaves_its_mark(s: PpuView, m: Mmio)
    requires
        !m.is_cgb(),
        s.hist.bgp_writes.len() > 0,
        s.bgp_write_collides(s.hist.bgp_writes.len() - 1),
        s.frames.wf(),
        m.ly < 144,
        ({
            let col = s.hist.bgp_writes.last().1;
            col < 160 && col < s.hist.line_bg_idx.len() && s.hist.line_bg_idx[col as int] >= 0
        }),
    ensures
        ({
            let (_cc, col, merged) = s.hist.bgp_writes.last();
            s.resolve_bgp_spikes(m).fb_a[m.ly * 160 + col] == bgp_shade(
                merged,
                s.hist.line_bg_idx[col as int] as u8,
            )
        }),
{
    reveal(PpuView::resolve_bgp_spikes);
    lemma_spikes_size(s, m.ly, s.hist.bgp_writes.len() - 1);
}

proof fn lemma_spikes_size(s: PpuView, ly: u8, n: int)
    requires
        s.frames.wf(),
        ly < 144,
    ensures
        s.bgp_spikes(ly, n).fb_a.len() == s.frames.fb_a.len(),
    decreases n,
{
    if n > 0 {
        lemma_spikes_size(s, ly, n - 1);
    }
}

} // verus!
