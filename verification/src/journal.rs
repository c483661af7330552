//! Records of register writes that meet a fetch on the bus, of LCDC writes on
//! their way, and of what the debugger asked for.

use vstd::prelude::*;

verus! {

#[derive(Clone, Copy, Debug, PartialEq, Eq, Structural)]
pub enum FetchDebugEventKind {
    TileNumber,
    TileDataLow,
    TileDataHigh,
    PushToFifo,
}

/// A fetcher step, with the dot and line it happened on.
#[derive(Clone, Copy, Debug, PartialEq, Eq, Structural)]
pub struct FetchDebugEvent {
    pub kind: FetchDebugEventKind,
    pub ppu_ticks: u128,
    pub x: u8,
    pub ly: u8,
    pub fifo_size: usize,
    pub tile_index: u8,
    pub tile_num: u8,
    pub tile_attributes: u8,
    pub tile_line: u8,
    pub addr: Option<u16>,
    pub value: Option<u8>,
    pub lcdc: u8,
    pub tile_index_is_tile_data: bool,
    pub fetching_window: bool,
}

/// A drawn pixel.
#[derive(Clone, Copy, Debug, PartialEq, Eq)]
pub struct PixelDebugEvent {
    pub ppu_ticks: u128,
    pub x: u8,
    pub ly: u8,
    pub bg_pixel_idx: u8,
    pub rgb: [u8; 3],
    pub lcdc: u8,
}

/// What a `PixelDebugEvent` holds.
pub struct PixelView {
    pub ppu_ticks: u128,
    pub x: u8,
    pub ly: u8,
    pub bg_pixel_idx: u8,
    pub rgb: (u8, u8, u8),
    pub lcdc: u8,
}

impl View for PixelDebugEvent {
    type V = PixelView;

    open spec fn view(&self) -> PixelView {
        PixelView {
            ppu_ticks: self.ppu_ticks,
            x: self.x,
            ly: self.ly,
            bg_pixel_idx: self.bg_pixel_idx,
            rgb: (self.rgb[0], self.rgb[1], self.rgb[2]),
            lcdc: self.lcdc,
        }
    }
}

/// The models of some pixel records.
pub open spec fn pixel_views(s: Seq<PixelDebugEvent>) -> Seq<PixelView> {
    Seq::new(s.len(), |i: int| s[i]@)
}

/// The debug records not taken yet.
#[derive(Clone)]
pub struct DebugLog {
    fetches: Vec<FetchDebugEvent>,
    pixels: Vec<PixelDebugEvent>,
}

#[verifier::ext_equal]
pub struct DebugView {
    pub fetches: Seq<FetchDebugEvent>,
    pub pixels: Seq<PixelView>,
}

impl DebugView {
    pub open spec fn empty() -> DebugView {
        DebugView { fetches: Seq::empty(), pixels: Seq::empty() }
    }
}

impl View for DebugLog {
    type V = DebugView;

    closed spec fn view(&self) -> DebugView {
        DebugView { fetches: self.fetches@, pixels: pixel_views(self.pixels@) }
    }
}

impl DebugLog {
    pub fn new() -> (r: Self)
        ensures
            r@ == DebugView::empty(),
    {
        let r = DebugLog { fetches: Vec::new(), pixels: Vec::new() };
        assert(r@ =~= DebugView::empty());
        r
    }

    pub fn push_fetch(&mut self, e: FetchDebugEvent)
        ensures
            final(self)@ == (DebugView { fetches: old(self)@.fetches.push(e), ..old(self)@ }),
    {
        self.fetches.push(e);
    }

    pub fn push_pixel(&mut self, e: PixelDebugEvent)
        ensures
            final(self)@ == (DebugView { pixels: old(self)@.pixels.push(e@), ..old(self)@ }),
    {
        self.pixels.push(e);
        assert(self@.pixels =~= old(self)@.pixels.push(e@));
    }

    /// Hands the fetch records out and starts over.
    pub fn take_fetches(&mut self) -> (r: Vec<FetchDebugEvent>)
        ensures
            r@ == old(self)@.fetches,
            final(self)@ == (DebugView { fetches: Seq::empty(), ..old(self)@ }),
    {
        let mut out: Vec<FetchDebugEvent> = Vec::new();
        std::mem::swap(&mut out, &mut self.fetches);
        assert(self.fetches@ =~= Seq::empty());
        out
    }

    /// Hands the pixel records out and starts over.
    pub fn take_pixels(&mut self) -> (r: Vec<PixelDebugEvent>)
        ensures
            pixel_views(r@) == old(self)@.pixels,
            final(self)@ == (DebugView { pixels: Seq::empty(), ..old(self)@ }),
    {
        let mut out: Vec<PixelDebugEvent> = Vec::new();
        std::mem::swap(&mut out, &mut self.pixels);
        assert(self@.pixels =~= Seq::empty());
        out
    }
}

/// How much of an LCDC write an event makes visible.
#[derive(Clone, Copy, Debug, PartialEq, Eq, Structural)]
pub enum PendingLcdcEventKind {
    TileDataSelectOnly,
    Full,
}

/// An LCDC write on its way.
#[derive(Clone, Copy, Debug, PartialEq, Eq, Structural)]
pub struct PendingLcdcEvent {
    pub cycles_remaining: u32,
    pub base_value: u8,
    pub value: u8,
    pub kind: PendingLcdcEventKind,
}

/// LCDC writes on their way, the oldest first.
#[derive(Clone)]
pub struct LcdcQueue {
    events: Vec<PendingLcdcEvent>,
}

impl View for LcdcQueue {
    type V = Seq<PendingLcdcEvent>;

    closed spec fn view(&self) -> Seq<PendingLcdcEvent> {
        self.events@
    }
}

impl LcdcQueue {
    pub fn new() -> (r: Self)
        ensures
            r@ == Seq::<PendingLcdcEvent>::empty(),
    {
        let r = LcdcQueue { events: Vec::new() };
        assert(r@ =~= Seq::<PendingLcdcEvent>::empty());
        r
    }

    pub fn len(&self) -> (r: usize)
        ensures
            r == self@.len(),
    {
        self.events.len()
    }

    pub fn clear(&mut self)
        ensures
            final(self)@ == Seq::<PendingLcdcEvent>::empty(),
    {
        self.events.clear();
        assert(self@ =~= Seq::<PendingLcdcEvent>::empty());
    }

    pub fn push(&mut self, e: PendingLcdcEvent)
        ensures
            final(self)@ == old(self)@.push(e),
    {
        self.events.push(e);
    }

    pub fn get(&self, i: usize) -> (r: PendingLcdcEvent)
        requires
            i < self@.len(),
        ensures
            r == self@[i as int],
    {
        self.events[i]
    }

    pub fn set(&mut self, i: usize, e: PendingLcdcEvent)
        requires
            i < old(self)@.len(),
        ensures
            final(self)@ == old(self)@.update(i as int, e),
    {
        self.events.set(i, e);
    }

    pub fn remove(&mut self, i: usize) -> (r: PendingLcdcEvent)
        requires
            i < old(self)@.len(),
        ensures
            r == old(self)@[i as int],
            final(self)@ == old(self)@.remove(i as int),
    {
        self.events.remove(i)
    }
}

/// A tile captured while writes compete with its fetch.
#[derive(Clone, Copy, Debug, PartialEq, Eq, Structural)]
pub struct CapturedTile {
    /// The tile's number since the line or the window started.
    pub n: u8,
    pub tn: u8,
    /// The first column that shows the tile.
    pub first_x: u8,
    /// Pixels of the tile that lie left of that column.
    pub lead: u8,
    /// The row of the background or of the window.
    pub y: u8,
    /// The tile data select bits that its two bytes were read with.
    pub live_low_tds: bool,
    pub live_high_tds: bool,
}

/// Register writes of the line by bus clock.
#[derive(Clone)]
pub struct Journal {
    tidxtd: Vec<(u64, u8)>,
    wg_hist: Vec<(u64, u8, u8)>,
    bg_scy_hist: Vec<(u64, u8, u8)>,
    bg_scx_hist: Vec<(u64, u8, u8)>,
    bg_tiles: Vec<CapturedTile>,
    win_tiles: Vec<CapturedTile>,
}

#[verifier::ext_equal]
pub struct JournalView {
    /// Clock and fetch step at which tile data reads return the tile number.
    pub tidxtd: Seq<(u64, u8)>,
    /// Clock, old and new value of LCDC bus transitions.
    pub wg_hist: Seq<(u64, u8, u8)>,
    pub bg_scy_hist: Seq<(u64, u8, u8)>,
    pub bg_scx_hist: Seq<(u64, u8, u8)>,
    pub bg_tiles: Seq<CapturedTile>,
    pub win_tiles: Seq<CapturedTile>,
}

impl JournalView {
    pub open spec fn empty() -> JournalView {
        JournalView {
            tidxtd: Seq::empty(),
            wg_hist: Seq::empty(),
            bg_scy_hist: Seq::empty(),
            bg_scx_hist: Seq::empty(),
            bg_tiles: Seq::empty(),
            win_tiles: Seq::empty(),
        }
    }

    /// Whether a tile data read in fetch step `step` at `cc` returns the tile
    /// number.
    pub open spec fn tidxtd_at(self, cc: u64, step: u8) -> bool {
        exists|i: int| 0 <= i < self.tidxtd.len() && #[trigger] self.tidxtd[i] == (cc, step)
    }
}

impl View for Journal {
    type V = JournalView;

    closed spec fn view(&self) -> JournalView {
        JournalView {
            tidxtd: self.tidxtd@,
            wg_hist: self.wg_hist@,
            bg_scy_hist: self.bg_scy_hist@,
            bg_scx_hist: self.bg_scx_hist@,
            bg_tiles: self.bg_tiles@,
            win_tiles: self.win_tiles@,
        }
    }
}

impl Journal {
    pub fn new() -> (r: Self)
        ensures
            r@ == JournalView::empty(),
    {
        let r = Journal {
            tidxtd: Vec::new(),
            wg_hist: Vec::new(),
            bg_scy_hist: Vec::new(),
            bg_scx_hist: Vec::new(),
            bg_tiles: Vec::new(),
            win_tiles: Vec::new(),
        };
        assert(r@ =~= JournalView::empty());
        r
    }

    /// Starts a new line.
    pub fn clear(&mut self)
        ensures
            final(self)@ == JournalView::empty(),
    {
        *self = Journal::new();
    }

    pub fn push_tidxtd(&mut self, cc: u64, step: u8)
        ensures
            final(self)@ == (JournalView {
                tidxtd: old(self)@.tidxtd.push((cc, step)),
                ..old(self)@
            }),
    {
        self.tidxtd.push((cc, step));
    }

    pub fn push_wg(&mut self, cc: u64, old_lcdc: u8, new_lcdc: u8)
        ensures
            final(self)@ == (JournalView {
                wg_hist: old(self)@.wg_hist.push((cc, old_lcdc, new_lcdc)),
                ..old(self)@
            }),
    {
        self.wg_hist.push((cc, old_lcdc, new_lcdc));
    }

    pub fn push_bg_tile(&mut self, t: CapturedTile)
        ensures
            final(self)@ == (JournalView { bg_tiles: old(self)@.bg_tiles.push(t), ..old(self)@ }),
    {
        self.bg_tiles.push(t);
    }

    pub fn push_win_tile(&mut self, t: CapturedTile)
        ensures
            final(self)@ == (JournalView { win_tiles: old(self)@.win_tiles.push(t), ..old(self)@ }),
    {
        self.win_tiles.push(t);
    }

    pub fn push_scy(&mut self, cc: u64, old_scy: u8, new_scy: u8)
        ensures
            final(self)@ == (JournalView {
                bg_scy_hist: old(self)@.bg_scy_hist.push((cc, old_scy, new_scy)),
                ..old(self)@
            }),
    {
        self.bg_scy_hist.push((cc, old_scy, new_scy));
    }

    pub fn push_scx(&mut self, cc: u64, old_scx: u8, new_scx: u8)
        ensures
            final(self)@ == (JournalView {
                bg_scx_hist: old(self)@.bg_scx_hist.push((cc, old_scx, new_scx)),
                ..old(self)@
            }),
    {
        self.bg_scx_hist.push((cc, old_scx, new_scx));
    }

    pub fn bg_tiles(&self) -> (r: &Vec<CapturedTile>)
        ensures
            r@ == self@.bg_tiles,
    {
        &self.bg_tiles
    }

    pub fn win_tiles(&self) -> (r: &Vec<CapturedTile>)
        ensures
            r@ == self@.win_tiles,
    {
        &self.win_tiles
    }

    pub fn wg_hist(&self) -> (r: &Vec<(u64, u8, u8)>)
        ensures
            r@ == self@.wg_hist,
    {
        &self.wg_hist
    }

    pub fn scy_hist(&self) -> (r: &Vec<(u64, u8, u8)>)
        ensures
            r@ == self@.bg_scy_hist,
    {
        &self.bg_scy_hist
    }

    pub fn scx_hist(&self) -> (r: &Vec<(u64, u8, u8)>)
        ensures
            r@ == self@.bg_scx_hist,
    {
        &self.bg_scx_hist
    }

    pub fn tidxtd_at(&self, cc: u64, step: u8) -> (r: bool)
        ensures
            r == self@.tidxtd_at(cc, step),
    {
        let mut i: usize = 0;
        while i < self.tidxtd.len()
            invariant
                i <= self.tidxtd@.len(),
                forall|k: int| 0 <= k < i ==> #[trigger] self.tidxtd@[k] != (cc, step),
            decreases self.tidxtd@.len() - i,
        {
            let (at, st): (u64, u8) = self.tidxtd[i];
            if at == cc && st == step {
                assert(self@.tidxtd[i as int] == (cc, step));
                return true;
            }
            i += 1;
        }
        false
    }
}


/// The line's register writes in their parts.
pub struct JournalParts {
    pub tidxtd: Vec<(u64, u8)>,
    pub wg_hist: Vec<(u64, u8, u8)>,
    pub bg_scy_hist: Vec<(u64, u8, u8)>,
    pub bg_scx_hist: Vec<(u64, u8, u8)>,
    pub bg_tiles: Vec<CapturedTile>,
    pub win_tiles: Vec<CapturedTile>,
}

impl View for JournalParts {
    type V = JournalView;

    open spec fn view(&self) -> JournalView {
        JournalView {
            tidxtd: self.tidxtd@,
            wg_hist: self.wg_hist@,
            bg_scy_hist: self.bg_scy_hist@,
            bg_scx_hist: self.bg_scx_hist@,
            bg_tiles: self.bg_tiles@,
            win_tiles: self.win_tiles@,
        }
    }
}

impl Journal {
    /// Takes the value apart.
    pub fn into_parts(self) -> (r: JournalParts)
        ensures
            r@ == self@,
    {
        JournalParts {
            tidxtd: self.tidxtd,
            wg_hist: self.wg_hist,
            bg_scy_hist: self.bg_scy_hist,
            bg_scx_hist: self.bg_scx_hist,
            bg_tiles: self.bg_tiles,
            win_tiles: self.win_tiles,
        }
    }

    /// Puts the value together again.
    pub fn from_parts(parts: JournalParts) -> (r: Self)
        ensures
            r@ == parts@,
    {
        Journal {
            tidxtd: parts.tidxtd,
            wg_hist: parts.wg_hist,
            bg_scy_hist: parts.bg_scy_hist,
            bg_scx_hist: parts.bg_scx_hist,
            bg_tiles: parts.bg_tiles,
            win_tiles: parts.win_tiles,
        }
    }
}

impl LcdcQueue {
    /// The writes on their way, the oldest first.
    pub fn into_events(self) -> (r: Vec<PendingLcdcEvent>)
        ensures
            r@ == self@,
    {
        self.events
    }

    pub fn from_events(events: Vec<PendingLcdcEvent>) -> (r: Self)
        ensures
            r@ == events@,
    {
        LcdcQueue { events }
    }
}

} // verus!
