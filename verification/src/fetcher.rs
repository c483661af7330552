//! The background/window tile fetcher: four steps per tile, two dots each.

use vstd::prelude::*;

use crate::fifo::{overlay, BgPixel, Fifo};
use crate::mmio::Mmio;
use crate::regs::{lcdc_has, LCDCFlags};

verus! {

/// The fetcher's next step.
#[derive(Clone, Copy, Debug, PartialEq, Eq, Structural)]
pub enum FetchState {
    TileNumber,
    TileDataLow,
    TileDataHigh,
    PushToFIFO,
}

#[derive(Clone, Copy, Debug, PartialEq, Eq, Structural)]
pub enum FetcherDebugEventKind {
    TileNumber,
    TileDataLow,
    TileDataHigh,
    PushToFifo,
}

/// What a step of the fetcher did.
#[derive(Clone, Copy, Debug, PartialEq, Eq, Structural)]
pub struct FetcherDebugEvent {
    pub kind: FetcherDebugEventKind,
    pub tile_index: u8,
    pub tile_num: u8,
    pub tile_attributes: u8,
    pub tile_line: u8,
    pub addr: Option<u16>,
    pub value: Option<u8>,
    pub lcdc: u8,
    pub tile_index_is_tile_data: bool,
    pub fifo_size: usize,
    pub fetching_window: bool,
}

/// Where on the screen and in the scrolled background the fetch takes place.
#[derive(Clone, Copy, Debug, PartialEq, Eq, Structural)]
pub struct FetchPos {
    /// The window's own line counter.
    pub window_line: u8,
    pub display_x: u8,
    /// Fine-scroll pixels still to be dropped.
    pub pending_discard: u8,
    pub scy: u8,
    pub scx: u8,
}

impl Default for FetchPos {
    fn default() -> (r: Self)
        ensures
            r == (FetchPos { window_line: 0, display_x: 0, pending_discard: 0, scy: 0, scx: 0 }),
    {
        FetchPos { window_line: 0, display_x: 0, pending_discard: 0, scy: 0, scx: 0 }
    }
}

/// LCDC and the scroll registers as the fetch finds them on the bus.
#[derive(Clone, Copy, Debug, PartialEq, Eq, Structural)]
pub struct FetcherLcdcState {
    pub lcdc: u8,
    /// A tile data read below tile 0x80 returns the tile number.
    pub cgb_tile_index_is_tile_data: bool,
    /// A second LCDC value on the bus: reads return both bytes, ORed.
    pub or_lcdc: Option<u8>,
    /// SCY as the bus has it, where that differs from the latched value.
    pub scy_bus: Option<u8>,
    /// SCX as the bus has it, where that differs from the latched value.
    pub scx_bus: Option<u8>,
}

/// The fetcher and the queue it feeds.
#[derive(Clone)]
pub struct Fetcher {
    state: FetchState,
    pixel_fifo: Fifo,
    tile_num: u8,
    /// Tiles fetched since the line or the window started.
    tile_index: u8,
    tile_attributes: u8,
    pixel_buffer: [u8; 8],
    fetching_window: bool,
    window_x_start: u8,
    /// Window tiles still to come after the window was switched off.
    stop_window_after_tiles: u8,
    window_revert_at_push: bool,
    latched_y: u8,
    subcc_xpos: u16,
    subcc_cgb_adj: u8,
    subcc_used_scx: u8,
    last_vram_addr: u16,
    last_vram_bank: u8,
    last_bg_tn_col: u8,
    last_low_tds: bool,
    last_high_tds: bool,
    /// The last tile of the line before, kept for glitched window fetches.
    stale_tile_num: u8,
    stale_tile_attributes: u8,
    /// Window fetches to come that skip the tile map.
    wx0_glitch_fetches: u8,
}

/// What a `Fetcher` holds.
#[verifier::ext_equal]
pub struct FetcherView {
    pub state: FetchState,
    pub fifo: Seq<BgPixel>,
    pub tile_num: u8,
    pub tile_index: u8,
    pub tile_attributes: u8,
    pub pixel_buffer: Seq<u8>,
    pub fetching_window: bool,
    pub window_x_start: u8,
    pub stop_window_after_tiles: u8,
    pub window_revert_at_push: bool,
    pub latched_y: u8,
    pub subcc_xpos: u16,
    pub subcc_cgb_adj: u8,
    pub subcc_used_scx: u8,
    pub last_vram_addr: u16,
    pub last_vram_bank: u8,
    pub last_bg_tn_col: u8,
    pub last_low_tds: bool,
    pub last_high_tds: bool,
    pub stale_tile_num: u8,
    pub stale_tile_attributes: u8,
    pub wx0_glitch_fetches: u8,
}

impl View for Fetcher {
    type V = FetcherView;

    closed spec fn view(&self) -> FetcherView {
        FetcherView {
            state: self.state,
            fifo: self.pixel_fifo@,
            tile_num: self.tile_num,
            tile_index: self.tile_index,
            tile_attributes: self.tile_attributes,
            pixel_buffer: self.pixel_buffer@,
            fetching_window: self.fetching_window,
            window_x_start: self.window_x_start,
            stop_window_after_tiles: self.stop_window_after_tiles,
            window_revert_at_push: self.window_revert_at_push,
            latched_y: self.latched_y,
            subcc_xpos: self.subcc_xpos,
            subcc_cgb_adj: self.subcc_cgb_adj,
            subcc_used_scx: self.subcc_used_scx,
            last_vram_addr: self.last_vram_addr,
            last_vram_bank: self.last_vram_bank,
            last_bg_tn_col: self.last_bg_tn_col,
            last_low_tds: self.last_low_tds,
            last_high_tds: self.last_high_tds,
            stale_tile_num: self.stale_tile_num,
            stale_tile_attributes: self.stale_tile_attributes,
            wx0_glitch_fetches: self.wx0_glitch_fetches,
        }
    }
}

/// The tile map that a select bit chooses.
#[verifier::allow_in_spec]
pub fn tile_map_base(high: bool) -> u16
    returns
        (if high { 0x9C00u16 } else { 0x9800 }),
{
    if high { 0x9C00 } else { 0x9800 }
}

/// Where line `tile_line` of tile `tile_id` starts: tiles count up from 0x8000,
/// or as signed numbers around 0x9000.
pub open spec fn tile_data_address(tile_id: u8, tile_line: u8, lcdc: u8) -> int {
    if lcdc_has(lcdc, LCDCFlags::BGWindowTileDataSelect) {
        0x8000 + tile_id * 16 + tile_line * 2
    } else {
        0x9000 + (if tile_id < 128 { tile_id as int } else { tile_id - 256 }) * 16 + tile_line * 2
    }
}

/// Bit `i` of a tile row counted from the left, or from the right if flipped.
pub open spec fn row_bit(byte: u8, i: int, x_flip: bool) -> u8 {
    (byte >> ((if x_flip { i } else { 7 - i }) as u8)) & 1
}

/// The colour indices of a tile row.
pub open spec fn row_colors(low: u8, high: u8, x_flip: bool) -> Seq<u8> {
    Seq::new(8, |i: int| (row_bit(high, i, x_flip) << 1) | row_bit(low, i, x_flip))
}

impl FetcherView {
    pub open spec fn wf(self) -> bool {
        &&& self.fifo.len() <= 16
        &&& self.pixel_buffer.len() == 8
        &&& self.subcc_xpos <= 0x200
        &&& self.subcc_cgb_adj <= 1
    }

    /// An idle fetcher that has fetched nothing.
    pub open spec fn fresh() -> FetcherView {
        FetcherView {
            state: FetchState::TileNumber,
            fifo: Seq::empty(),
            tile_num: 0,
            tile_index: 0,
            tile_attributes: 0,
            pixel_buffer: Seq::new(8, |i: int| 0u8),
            fetching_window: false,
            window_x_start: 0,
            stop_window_after_tiles: 0,
            window_revert_at_push: false,
            latched_y: 0,
            subcc_xpos: 0,
            subcc_cgb_adj: 0,
            subcc_used_scx: 0,
            last_vram_addr: 0xFFFF,
            last_vram_bank: 0,
            last_bg_tn_col: 0,
            last_low_tds: false,
            last_high_tds: false,
            stale_tile_num: 0,
            stale_tile_attributes: 0,
            wx0_glitch_fetches: 0,
        }
    }

    /// Ready for a new line; the last tile of the old one is remembered.
    pub open spec fn reset(self) -> FetcherView {
        FetcherView {
            state: FetchState::TileNumber,
            fifo: Seq::empty(),
            tile_num: 0,
            tile_index: 0,
            tile_attributes: 0,
            pixel_buffer: Seq::new(8, |i: int| 0u8),
            fetching_window: false,
            window_x_start: 0,
            stop_window_after_tiles: 0,
            window_revert_at_push: false,
            last_vram_addr: 0xFFFF,
            stale_tile_num: self.tile_num,
            stale_tile_attributes: self.tile_attributes,
            wx0_glitch_fetches: 0,
            ..self
        }
    }

    /// Restarted in the window, at tile `start_tile` of its map row.
    pub open spec fn start_window(self, window_x: u8, start_tile: u8) -> FetcherView {
        FetcherView {
            fetching_window: true,
            window_x_start: window_x,
            tile_index: start_tile,
            fifo: Seq::empty(),
            state: FetchState::TileNumber,
            stop_window_after_tiles: 0,
            window_revert_at_push: false,
            ..self
        }
    }

    /// Back to the background, at once or after `extra` more window tiles.
    pub open spec fn stop_window(self, extra: u8) -> FetcherView {
        if extra == 0 {
            FetcherView { fetching_window: false, stop_window_after_tiles: 0, ..self }
        } else {
            FetcherView { stop_window_after_tiles: extra, ..self }
        }
    }

    /// The tile row in flight with its low plane replaced.
    pub open spec fn with_low(self, byte: u8) -> FetcherView {
        FetcherView {
            pixel_buffer: Seq::new(
                8,
                |i: int| (self.pixel_buffer[i] & !1u8) | row_bit(byte, i, false),
            ),
            ..self
        }
    }

    /// The tile row in flight with its high plane replaced.
    pub open spec fn with_high(self, byte: u8) -> FetcherView {
        FetcherView {
            pixel_buffer: Seq::new(
                8,
                |i: int| (self.pixel_buffer[i] & !2u8) | (row_bit(byte, i, false) << 1),
            ),
            ..self
        }
    }

    /// The background tile in flight with the reads already made of it made
    /// again, each under its own bus state.
    #[verifier::opaque]
    pub open spec fn repaired(
        self,
        m: Mmio,
        number: FetcherLcdcState,
        low: FetcherLcdcState,
        high: FetcherLcdcState,
    ) -> FetcherView {
        let line = self.latched_y % 8;
        let offset = ((self.latched_y / 8) % 32) * 32 + self.last_bg_tn_col;
        let t1 = if self.substep() >= 1 {
            FetcherView { tile_num: self.map_byte(m, number, offset), ..self }
        } else {
            self
        };
        let t2 = if self.substep() >= 2 { t1.with_low(t1.data_byte(m, low, line, false)) } else { t1
        };
        if self.substep() >= 3 { t2.with_high(t2.data_byte(m, high, line, true)) } else { t2 }
    }

    /// The next queued pixel taken out.
    pub open spec fn pop(self) -> (FetcherView, Option<BgPixel>) {
        if self.fifo.len() == 0 {
            (self, None)
        } else {
            (FetcherView { fifo: self.fifo.skip(1), ..self }, Some(self.fifo[0]))
        }
    }

    /// The tile queued last, rewritten.
    pub open spec fn with_newest(self, row: Seq<BgPixel>) -> FetcherView {
        if self.fifo.len() >= 8 {
            FetcherView { fifo: overlay(self.fifo, self.fifo.len() - 8, row), ..self }
        } else {
            self
        }
    }

    pub open spec fn substep(self) -> u8 {
        match self.state {
            FetchState::TileNumber => 0,
            FetchState::TileDataLow => 1,
            FetchState::TileDataHigh => 2,
            FetchState::PushToFIFO => 3,
        }
    }

    /// The background or window row being fetched. Background reads latch it;
    /// the push repeats the latched row.
    pub open spec fn fetch_y(self, m: Mmio, ls: FetcherLcdcState, pos: FetchPos) -> u8 {
        if self.fetching_window {
            pos.window_line
        } else if self.state is PushToFIFO {
            self.latched_y
        } else {
            m.ly.wrapping_add(match ls.scy_bus {
                Some(v) => v,
                None => pos.scy,
            })
        }
    }

    pub open spec fn latch_y(self, m: Mmio, ls: FetcherLcdcState, pos: FetchPos) -> FetcherView {
        FetcherView {
            latched_y: if self.fetching_window || self.state is PushToFIFO {
                self.latched_y
            } else {
                self.fetch_y(m, ls, pos)
            },
            ..self
        }
    }

    /// The pixel, counted from the left edge of the screen, that the next
    /// queued tile starts at.
    pub open spec fn next_xpos(self, pos: FetchPos) -> int {
        let x = pos.display_x + self.fifo.len() - pos.pending_discard;
        if x < 0 { 0 } else { x }
    }

    /// The debug record of a step in this state.
    pub open spec fn event(
        self,
        kind: FetcherDebugEventKind,
        tile_line: u8,
        addr: Option<u16>,
        value: Option<u8>,
        ls: FetcherLcdcState,
    ) -> FetcherDebugEvent {
        FetcherDebugEvent {
            kind,
            tile_index: self.tile_index,
            tile_num: self.tile_num,
            tile_attributes: self.tile_attributes,
            tile_line,
            addr,
            value,
            lcdc: ls.lcdc,
            tile_index_is_tile_data: ls.cgb_tile_index_is_tile_data,
            fifo_size: self.fifo.len() as usize,
            fetching_window: self.fetching_window,
        }
    }

    /// A window that was switched off runs out: the last of its remaining
    /// tiles hands back to the background when it is pushed.
    pub open spec fn count_down_window(self) -> FetcherView {
        if self.fetching_window && self.stop_window_after_tiles > 0 {
            FetcherView {
                stop_window_after_tiles: (self.stop_window_after_tiles - 1) as u8,
                window_revert_at_push: self.window_revert_at_push || self.stop_window_after_tiles
                    == 1,
                ..self
            }
        } else {
            self
        }
    }

    /// The map entry to read, relative to the map's start: the window counts
    /// its own tiles, the background goes by scroll and screen position.
    pub open spec fn map_offset(self, m: Mmio, ls: FetcherLcdcState, pos: FetchPos) -> int {
        if self.fetching_window {
            (pos.window_line / 8) * 32 + self.tile_index
        } else {
            let y = self.fetch_y(m, ls, pos);
            ((y / 8) % 32) * 32 + self.bg_tile_x(m, ls, pos)
        }
    }

    pub open spec fn cgb_adj(self, m: Mmio, pos: FetchPos) -> int {
        if m.is_cgb() || pos.display_x == 0 { 0 } else { 1 }
    }

    pub open spec fn bg_tile_x(self, m: Mmio, ls: FetcherLcdcState, pos: FetchPos) -> int {
        let scx = match ls.scx_bus {
            Some(v) => v,
            None => pos.scx,
        };
        (scx + self.next_xpos(pos) + self.cgb_adj(m, pos)) / 8 % 32
    }

    pub open spec fn map_base(self, lcdc: u8) -> u16 {
        if self.fetching_window {
            tile_map_base(lcdc_has(lcdc, LCDCFlags::WindowTileMapDisplaySelect))
        } else {
            tile_map_base(lcdc_has(lcdc, LCDCFlags::BGTileMapDisplaySelect))
        }
    }

    /// The tile number on the bus: the map's byte, ORed with the other map's
    /// where two LCDC values compete.
    pub open spec fn map_byte(self, m: Mmio, ls: FetcherLcdcState, offset: int) -> u8 {
        let base = self.map_base(ls.lcdc);
        let byte = m.read_vram_bank(0, (base + offset) as u16);
        match ls.or_lcdc {
            Some(l2) if self.map_base(l2) != base => byte | m.read_vram_bank(
                0,
                (self.map_base(l2) + offset) as u16,
            ),
            _ => byte,
        }
    }

    pub open spec fn step_tile_number(
        self,
        m: Mmio,
        ls: FetcherLcdcState,
        pos: FetchPos,
    ) -> (FetcherView, Option<FetcherDebugEvent>) {
        let tile_line = self.fetch_y(m, ls, pos) % 8;
        let s = self.latch_y(m, ls, pos).count_down_window();
        let offset = s.map_offset(m, ls, pos);
        let addr = (s.map_base(ls.lcdc) + offset) as u16;
        let glitched = s.fetching_window && s.wx0_glitch_fetches > 0;
        let t = FetcherView {
            subcc_xpos: if s.fetching_window { s.subcc_xpos } else { s.next_xpos(pos) as u16 },
            subcc_cgb_adj: if s.fetching_window {
                s.subcc_cgb_adj
            } else {
                s.cgb_adj(m, pos) as u8
            },
            subcc_used_scx: if s.fetching_window { s.subcc_used_scx } else { pos.scx },
            last_bg_tn_col: if s.fetching_window {
                s.last_bg_tn_col
            } else {
                s.bg_tile_x(m, ls, pos) as u8
            },
            last_vram_addr: addr,
            last_vram_bank: 0,
            tile_num: if glitched { s.stale_tile_num } else { s.map_byte(m, ls, offset) },
            tile_attributes: if !m.is_cgb_features_enabled() {
                0
            } else if glitched {
                s.stale_tile_attributes
            } else {
                m.read_vram_bank(1, addr)
            },
            wx0_glitch_fetches: if glitched {
                (s.wx0_glitch_fetches - 1) as u8
            } else {
                s.wx0_glitch_fetches
            },
            state: FetchState::TileDataLow,
            ..s
        };
        (
            t,
            Some(
                t.event(
                    FetcherDebugEventKind::TileNumber,
                    tile_line,
                    Some(addr),
                    Some(t.tile_num),
                    ls,
                ),
            ),
        )
    }

    /// CGB tile attributes flip tiles and pick a bank.
    pub open spec fn attr_set(self, m: Mmio, bit: u8) -> bool {
        m.is_cgb_features_enabled() && self.tile_attributes & bit != 0
    }

    pub open spec fn data_bank(self, m: Mmio) -> u8 {
        if self.attr_set(m, 0x08) { 1 } else { 0 }
    }

    pub open spec fn data_addr(self, m: Mmio, lcdc: u8, tile_line: u8, high: bool) -> u16 {
        let line = if self.attr_set(m, 0x40) { (7 - tile_line) as u8 } else { tile_line };
        (tile_data_address(self.tile_num, line, lcdc) + if high { 1int } else { 0 }) as u16
    }

    /// The tile data byte on the bus.
    pub open spec fn data_byte(
        self,
        m: Mmio,
        ls: FetcherLcdcState,
        tile_line: u8,
        high: bool,
    ) -> u8 {
        let addr = self.data_addr(m, ls.lcdc, tile_line, high);
        let bank = self.data_bank(m);
        let byte = if ls.cgb_tile_index_is_tile_data && self.tile_num < 0x80 {
            self.tile_num
        } else {
            m.read_vram_bank(bank, addr)
        };
        match ls.or_lcdc {
            Some(l2) if self.data_addr(m, l2, tile_line, high) != addr => byte | m.read_vram_bank(
                bank,
                self.data_addr(m, l2, tile_line, high),
            ),
            _ => byte,
        }
    }

    pub open spec fn step_tile_data(
        self,
        m: Mmio,
        ls: FetcherLcdcState,
        pos: FetchPos,
        high: bool,
    ) -> (FetcherView, Option<FetcherDebugEvent>) {
        let tile_line = self.fetch_y(m, ls, pos) % 8;
        let s = self.latch_y(m, ls, pos);
        let addr = s.data_addr(m, ls.lcdc, tile_line, high);
        let byte = s.data_byte(m, ls, tile_line, high);
        let x_flip = s.attr_set(m, 0x20);
        let tds = lcdc_has(ls.lcdc, LCDCFlags::BGWindowTileDataSelect);
        let t = if high {
            FetcherView {
                last_high_tds: tds,
                last_vram_addr: addr,
                last_vram_bank: s.data_bank(m),
                pixel_buffer: Seq::new(
                    8,
                    |i: int| s.pixel_buffer[i] | (row_bit(byte, i, x_flip) << 1),
                ),
                state: FetchState::PushToFIFO,
                ..s
            }
        } else {
            FetcherView {
                last_low_tds: tds,
                pixel_buffer: Seq::new(8, |i: int| row_bit(byte, i, x_flip)),
                state: FetchState::TileDataHigh,
                ..s
            }
        };
        let kind = if high {
            FetcherDebugEventKind::TileDataHigh
        } else {
            FetcherDebugEventKind::TileDataLow
        };
        (t, Some(t.event(kind, tile_line, Some(addr), Some(byte), ls)))
    }

    /// The tile's eight pixels.
    pub open spec fn tile_pixels(self) -> Seq<BgPixel> {
        Seq::new(
            8,
            |i: int| BgPixel { color: self.pixel_buffer[i], attrs: self.tile_attributes },
        )
    }

    /// The push waits until the queue is down to a tile.
    pub open spec fn step_push(
        self,
        m: Mmio,
        ls: FetcherLcdcState,
        pos: FetchPos,
    ) -> (FetcherView, Option<FetcherDebugEvent>) {
        let tile_line = self.fetch_y(m, ls, pos) % 8;
        if self.fifo.len() > 8 {
            (self, None)
        } else {
            let t = FetcherView {
                fifo: self.fifo + self.tile_pixels(),
                tile_index: self.tile_index.wrapping_add(1),
                state: FetchState::TileNumber,
                window_revert_at_push: false,
                fetching_window: self.fetching_window && !self.window_revert_at_push,
                ..self
            };
            (
                t,
                Some(
                    FetcherDebugEvent {
                        tile_index: self.tile_index,
                        ..t.event(FetcherDebugEventKind::PushToFifo, tile_line, None, None, ls)
                    },
                ),
            )
        }
    }

    /// One step of the fetcher, and its record; a push that has to wait does
    /// nothing and leaves no record.
    pub open spec fn step(
        self,
        m: Mmio,
        ls: FetcherLcdcState,
        pos: FetchPos,
    ) -> (FetcherView, Option<FetcherDebugEvent>) {
        match self.state {
            FetchState::TileNumber => self.step_tile_number(m, ls, pos),
            FetchState::TileDataLow => self.step_tile_data(m, ls, pos, false),
            FetchState::TileDataHigh => self.step_tile_data(m, ls, pos, true),
            FetchState::PushToFIFO => self.step_push(m, ls, pos),
        }
    }
}

impl Fetcher {
    /// The queue's bookkeeping is in order.
    pub closed spec fn queue_ok(&self) -> bool {
        self.pixel_fifo.wf()
    }

    pub open spec fn wf(&self) -> bool {
        &&& self.queue_ok()
        &&& self@.wf()
    }

    pub fn new() -> (r: Self)
        ensures
            r.wf(),
            r@ == FetcherView::fresh(),
    {
        let r = Fetcher {
            state: FetchState::TileNumber,
            pixel_fifo: Fifo::new(),
            tile_num: 0,
            tile_index: 0,
            tile_attributes: 0,
            pixel_buffer: [0; 8],
            fetching_window: false,
            window_x_start: 0,
            stop_window_after_tiles: 0,
            window_revert_at_push: false,
            latched_y: 0,
            subcc_xpos: 0,
            subcc_cgb_adj: 0,
            subcc_used_scx: 0,
            last_vram_addr: 0xFFFF,
            last_vram_bank: 0,
            last_bg_tn_col: 0,
            last_low_tds: false,
            last_high_tds: false,
            stale_tile_num: 0,
            stale_tile_attributes: 0,
            wx0_glitch_fetches: 0,
        };
        assert(r@ =~= FetcherView::fresh());
        r
    }

    /// The fetcher's last address on the video memory bus, and the bank.
    pub fn last_vram_bus(&self) -> (r: (u16, u8))
        ensures
            r == (self@.last_vram_addr, self@.last_vram_bank),
    {
        (self.last_vram_addr, self.last_vram_bank)
    }

    pub fn reset(&mut self)
        ensures
            old(self)@.subcc_xpos <= 0x200 && old(self)@.subcc_cgb_adj <= 1 ==> final(self).wf(),
            final(self).queue_ok(),
            final(self)@ == old(self)@.reset(),
    {
        self.stale_tile_num = self.tile_num;
        self.stale_tile_attributes = self.tile_attributes;
        self.wx0_glitch_fetches = 0;
        self.state = FetchState::TileNumber;
        self.pixel_fifo.reset();
        self.tile_num = 0;
        self.tile_index = 0;
        self.tile_attributes = 0;
        self.pixel_buffer = [0; 8];
        self.fetching_window = false;
        self.window_x_start = 0;
        self.stop_window_after_tiles = 0;
        self.window_revert_at_push = false;
        self.last_vram_addr = 0xFFFF;
        assert(self@ =~= old(self)@.reset());
    }

    pub fn start_window(&mut self, window_x: u8)
        requires
            old(self).wf(),
        ensures
            final(self).wf(),
            final(self)@ == old(self)@.start_window(window_x, 0),
    {
        self.start_window_at_tile(window_x, 0);
    }

    pub fn start_window_at_tile(&mut self, window_x: u8, start_tile: u8)
        requires
            old(self).wf(),
        ensures
            final(self).wf(),
            final(self)@ == old(self)@.start_window(window_x, start_tile),
    {
        self.fetching_window = true;
        self.window_x_start = window_x;
        self.tile_index = start_tile;
        self.pixel_fifo.reset();
        self.state = FetchState::TileNumber;
        self.stop_window_after_tiles = 0;
        self.window_revert_at_push = false;
    }

    pub fn stop_window_with_extra(&mut self, extra: u8)
        requires
            old(self).wf(),
        ensures
            final(self).wf(),
            final(self)@ == old(self)@.stop_window(extra),
    {
        if extra == 0 {
            self.fetching_window = false;
            self.stop_window_after_tiles = 0;
        } else {
            self.stop_window_after_tiles = extra;
        }
    }

    /// The next `fetches` window fetches reuse the tile of the line before.
    pub fn arm_wx0_glitch(&mut self, fetches: u8)
        requires
            old(self).wf(),
        ensures
            final(self).wf(),
            final(self)@ == (FetcherView { wx0_glitch_fetches: fetches, ..old(self)@ }),
    {
        self.wx0_glitch_fetches = fetches;
    }

    fn get_window_tile_map_base(&self, lcdc: u8) -> (r: u16)
        ensures
            r == tile_map_base(lcdc_has(lcdc, LCDCFlags::WindowTileMapDisplaySelect)),
    {
        tile_map_base(lcdc_has(lcdc, LCDCFlags::WindowTileMapDisplaySelect))
    }

    fn get_tile_map_base(&self, lcdc: u8) -> (r: u16)
        ensures
            r == tile_map_base(lcdc_has(lcdc, LCDCFlags::BGTileMapDisplaySelect)),
    {
        tile_map_base(lcdc_has(lcdc, LCDCFlags::BGTileMapDisplaySelect))
    }

    pub fn get_tile_data_address(&self, tile_id: u8, tile_line: u8, lcdc: u8) -> (r: u16)
        ensures
            r == tile_data_address(tile_id, tile_line, lcdc),
            0x8000 <= r <= 0x9FFE,
    {
        if lcdc_has(lcdc, LCDCFlags::BGWindowTileDataSelect) {
            0x8000 + tile_id as u16 * 16 + tile_line as u16 * 2
        } else if tile_id < 128 {
            0x9000 + tile_id as u16 * 16 + tile_line as u16 * 2
        } else {
            0x9000 - (256 - tile_id as u16) * 16 + tile_line as u16 * 2
        }
    }

    fn tile_line_addr(&self, mmio: &Mmio, lcdc: u8, tile_line: u8, high: bool) -> (r: u16)
        requires
            tile_line < 8,
            self.wf(),
        ensures
            r == self@.data_addr(*mmio, lcdc, tile_line, high),
            0x8000 <= r <= 0x9FFF,
    {
        let y_flip = mmio.is_cgb_features_enabled() && (self.tile_attributes & 0x40) != 0;
        let eff_line: u8 = if y_flip { 7 - tile_line } else { tile_line };
        let plane: u16 = if high { 1 } else { 0 };
        self.get_tile_data_address(self.tile_num, eff_line, lcdc) + plane
    }

    fn tile_data_bank(&self, mmio: &Mmio) -> (r: u8)
        requires
            self.wf(),
        ensures
            r == self@.data_bank(*mmio),
            r <= 1,
    {
        if mmio.is_cgb_features_enabled() && (self.tile_attributes & 0x08) != 0 { 1 } else { 0 }
    }

    fn tile_data_byte(
        &self,
        mmio: &Mmio,
        lcdc_state: FetcherLcdcState,
        tile_line: u8,
        high: bool,
    ) -> (r: u8)
        requires
            tile_line < 8,
            self.wf(),
        ensures
            r == self@.data_byte(*mmio, lcdc_state, tile_line, high),
    {
        let addr: u16 = self.tile_line_addr(mmio, lcdc_state.lcdc, tile_line, high);
        let bank: u8 = self.tile_data_bank(mmio);
        let byte: u8 = if lcdc_state.cgb_tile_index_is_tile_data && self.tile_num < 0x80 {
            self.tile_num
        } else {
            mmio.read_vram_bank(bank, addr)
        };
        if let Some(l2) = lcdc_state.or_lcdc {
            let alt: u16 = self.tile_line_addr(mmio, l2, tile_line, high);
            if alt != addr {
                return byte | mmio.read_vram_bank(bank, alt);
            }
        }
        byte
    }

    fn fetch_tile_data_byte(
        &mut self,
        mmio: &Mmio,
        lcdc_state: FetcherLcdcState,
        tile_line: u8,
        high: bool,
    ) -> (r: (u16, u8, bool))
        requires
            tile_line < 8,
            old(self).wf(),
        ensures
            r.0 == old(self)@.data_addr(*mmio, lcdc_state.lcdc, tile_line, high),
            r.1 == old(self)@.data_byte(*mmio, lcdc_state, tile_line, high),
            r.2 == old(self)@.attr_set(*mmio, 0x20),
            final(self).wf(),
            final(self)@ == (if high {
                FetcherView {
                    last_high_tds: lcdc_has(
                        lcdc_state.lcdc,
                        LCDCFlags::BGWindowTileDataSelect,
                    ),
                    last_vram_addr: r.0,
                    last_vram_bank: old(self)@.data_bank(*mmio),
                    ..old(self)@
                }
            } else {
                FetcherView {
                    last_low_tds: lcdc_has(
                        lcdc_state.lcdc,
                        LCDCFlags::BGWindowTileDataSelect,
                    ),
                    ..old(self)@
                }
            }),
    {
        let x_flip = mmio.is_cgb_features_enabled() && (self.tile_attributes & 0x20) != 0;
        let addr: u16 = self.tile_line_addr(mmio, lcdc_state.lcdc, tile_line, high);
        let bank: u8 = self.tile_data_bank(mmio);
        let byte: u8 = self.tile_data_byte(mmio, lcdc_state, tile_line, high);
        let tds = lcdc_has(lcdc_state.lcdc, LCDCFlags::BGWindowTileDataSelect);
        if high {
            self.last_high_tds = tds;
            self.last_vram_addr = addr;
            self.last_vram_bank = bank;
        } else {
            self.last_low_tds = tds;
        }
        (addr, byte, x_flip)
    }

    fn record(
        &self,
        kind: FetcherDebugEventKind,
        tile_line: u8,
        addr: Option<u16>,
        value: Option<u8>,
        lcdc_state: FetcherLcdcState,
    ) -> (r: FetcherDebugEvent)
        requires
            self.wf(),
        ensures
            r == self@.event(kind, tile_line, addr, value, lcdc_state),
    {
        FetcherDebugEvent {
            kind,
            tile_index: self.tile_index,
            tile_num: self.tile_num,
            tile_attributes: self.tile_attributes,
            tile_line,
            addr,
            value,
            lcdc: lcdc_state.lcdc,
            tile_index_is_tile_data: lcdc_state.cgb_tile_index_is_tile_data,
            fifo_size: self.pixel_fifo.size(),
            fetching_window: self.fetching_window,
        }
    }

    fn step_tile_number(
        &mut self,
        mmio: &Mmio,
        lcdc_state: FetcherLcdcState,
        pos: FetchPos,
        y: u8,
    ) -> (r: FetcherDebugEvent)
        requires
            old(self).wf(),
            y == old(self)@.fetch_y(*mmio, lcdc_state, pos),
        ensures
            final(self).wf(),
            (final(self)@, Some(r)) == old(self)@.step_tile_number(*mmio, lcdc_state, pos),
    {
        if !self.fetching_window {
            self.latched_y = y;
        }
        if self.fetching_window && self.stop_window_after_tiles > 0 {
            self.stop_window_after_tiles -= 1;
            if self.stop_window_after_tiles == 0 {
                self.window_revert_at_push = true;
            }
        }
        let (map_base, map_offset): (u16, u16) = if self.fetching_window {
            let base: u16 = self.get_window_tile_map_base(lcdc_state.lcdc);
            (base, (pos.window_line / 8) as u16 * 32 + self.tile_index as u16)
        } else {
            let base: u16 = self.get_tile_map_base(lcdc_state.lcdc);
            let cgb_adj: u16 = if mmio.is_cgb() || pos.display_x == 0 { 0 } else { 1 };
            let reach: u16 = pos.display_x as u16 + self.pixel_fifo.size() as u16;
            let discard: u16 = pos.pending_discard as u16;
            let xpos: u16 = if reach >= discard { reach - discard } else { 0 };
            let scx_eff: u8 = match lcdc_state.scx_bus {
                Some(v) => v,
                None => pos.scx,
            };
            let bg_tile_x: u16 = (scx_eff as u16 + xpos + cgb_adj) / 8 % 32;
            self.subcc_xpos = xpos;
            self.subcc_cgb_adj = cgb_adj as u8;
            self.subcc_used_scx = pos.scx;
            let bg_tile_y: u16 = (y as u16 / 8) % 32;
            self.last_bg_tn_col = bg_tile_x as u8;
            (base, bg_tile_y * 32 + bg_tile_x)
        };
        let map_addr: u16 = map_base + map_offset;
        self.last_vram_addr = map_addr;
        self.last_vram_bank = 0;
        if self.fetching_window && self.wx0_glitch_fetches > 0 {
            self.wx0_glitch_fetches -= 1;
            self.tile_num = self.stale_tile_num;
            self.tile_attributes = if mmio.is_cgb_features_enabled() {
                self.stale_tile_attributes
            } else {
                0
            };
        } else {
            self.tile_num = mmio.read_vram_bank(0, map_addr);
            if let Some(l2) = lcdc_state.or_lcdc {
                let alt_base: u16 = if self.fetching_window {
                    self.get_window_tile_map_base(l2)
                } else {
                    self.get_tile_map_base(l2)
                };
                if alt_base != map_base {
                    self.tile_num = self.tile_num | mmio.read_vram_bank(0, alt_base + map_offset);
                }
            }
            self.tile_attributes = if mmio.is_cgb_features_enabled() {
                mmio.read_vram_bank(1, map_addr)
            } else {
                0
            };
        }
        self.state = FetchState::TileDataLow;
        self.record(
            FetcherDebugEventKind::TileNumber,
            y % 8,
            Some(map_addr),
            Some(self.tile_num),
            lcdc_state,
        )
    }

    fn step_tile_data(
        &mut self,
        mmio: &Mmio,
        lcdc_state: FetcherLcdcState,
        pos: FetchPos,
        y: u8,
        high: bool,
    ) -> (r: FetcherDebugEvent)
        requires
            old(self).wf(),
            !(old(self)@.state is PushToFIFO),
            y == old(self)@.fetch_y(*mmio, lcdc_state, pos),
        ensures
            final(self).wf(),
            (final(self)@, Some(r)) == old(self)@.step_tile_data(*mmio, lcdc_state, pos, high),
    {
        if !self.fetching_window {
            self.latched_y = y;
        }
        let ghost s = self@;
        let (addr, byte, x_flip): (u16, u8, bool) = self.fetch_tile_data_byte(
            mmio,
            lcdc_state,
            y % 8,
            high,
        );
        let ghost fetched = self@;
        let mut i: usize = 0;
        while i < 8
            invariant
                i <= 8,
                self.pixel_fifo.wf(),
                self@.pixel_buffer.len() == 8,
                self@ == (FetcherView { pixel_buffer: self@.pixel_buffer, ..fetched }),
                forall|k: int|
                    0 <= k < i ==> self@.pixel_buffer[k] == (if high {
                        s.pixel_buffer[k] | (row_bit(byte, k, x_flip) << 1)
                    } else {
                        row_bit(byte, k, x_flip)
                    }),
                forall|k: int| i <= k < 8 ==> self@.pixel_buffer[k] == s.pixel_buffer[k],
            decreases 8 - i,
        {
            let bit: u8 = if x_flip { i as u8 } else { 7 - i as u8 };
            if high {
                self.pixel_buffer[i] = self.pixel_buffer[i] | (((byte >> bit) & 0x01) << 1);
            } else {
                self.pixel_buffer[i] = (byte >> bit) & 0x01;
            }
            i += 1;
        }
        self.state = if high { FetchState::PushToFIFO } else { FetchState::TileDataHigh };
        assert(self@ =~= old(self)@.step_tile_data(*mmio, lcdc_state, pos, high).0);
        self.record(
            if high {
                FetcherDebugEventKind::TileDataHigh
            } else {
                FetcherDebugEventKind::TileDataLow
            },
            y % 8,
            Some(addr),
            Some(byte),
            lcdc_state,
        )
    }

    fn step_push(
        &mut self,
        mmio: &Mmio,
        lcdc_state: FetcherLcdcState,
        pos: FetchPos,
        y: u8,
    ) -> (r: Option<FetcherDebugEvent>)
        requires
            old(self).wf(),
            y == old(self)@.fetch_y(*mmio, lcdc_state, pos),
        ensures
            final(self).wf(),
            (final(self)@, r) == old(self)@.step_push(*mmio, lcdc_state, pos),
    {
        if self.pixel_fifo.size() > 8 {
            return None;
        }
        let mut i: usize = 0;
        while i < 8
            invariant
                i <= 8,
                self.pixel_fifo.wf(),
                self@ == (FetcherView { fifo: self@.fifo, ..old(self)@ }),
                self@.fifo == old(self)@.fifo + old(self)@.tile_pixels().take(i as int),
                old(self)@.pixel_buffer.len() == 8,
            decreases 8 - i,
        {
            self.pixel_fifo.push(
                BgPixel { color: self.pixel_buffer[i], attrs: self.tile_attributes },
            );
            i += 1;
            assert(self@.fifo =~= old(self)@.fifo + old(self)@.tile_pixels().take(i as int));
        }
        assert(old(self)@.tile_pixels().take(8) =~= old(self)@.tile_pixels());
        let pushed: u8 = self.tile_index;
        self.tile_index = self.tile_index.wrapping_add(1);
        self.state = FetchState::TileNumber;
        if self.window_revert_at_push {
            self.window_revert_at_push = false;
            self.fetching_window = false;
        }
        let ev = self.record(FetcherDebugEventKind::PushToFifo, y % 8, None, None, lcdc_state);
        Some(FetcherDebugEvent { tile_index: pushed, ..ev })
    }

    pub fn step(
        &mut self,
        mmio: &Mmio,
        lcdc_state: FetcherLcdcState,
        pos: FetchPos,
    ) -> (r: Option<FetcherDebugEvent>)
        requires
            old(self).wf(),
        ensures
            final(self).wf(),
            (final(self)@, r) == old(self)@.step(*mmio, lcdc_state, pos),
    {
        let scy_eff: u8 = match lcdc_state.scy_bus {
            Some(v) => v,
            None => pos.scy,
        };
        let y: u8 = if self.fetching_window {
            pos.window_line
        } else if matches!(self.state, FetchState::PushToFIFO) {
            self.latched_y
        } else {
            mmio.ly.wrapping_add(scy_eff)
        };
        match self.state {
            FetchState::TileNumber => Some(self.step_tile_number(mmio, lcdc_state, pos, y)),
            FetchState::TileDataLow => Some(self.step_tile_data(mmio, lcdc_state, pos, y, false)),
            FetchState::TileDataHigh => Some(self.step_tile_data(mmio, lcdc_state, pos, y, true)),
            FetchState::PushToFIFO => self.step_push(mmio, lcdc_state, pos, y),
        }
    }

    pub fn get_pixel_buffer(&self) -> (r: [u8; 8])
        ensures
            r@ == self@.pixel_buffer,
    {
        self.pixel_buffer
    }

    pub fn get_fifo_size(&self) -> (r: usize)
        requires
            self.wf(),
        ensures
            r == self@.fifo.len(),
    {
        self.pixel_fifo.size()
    }

    /// Takes the next pixel out of the queue, if there is one.
    pub fn pop_pixel(&mut self) -> (r: Option<BgPixel>)
        requires
            old(self).wf(),
        ensures
            final(self).wf(),
            (final(self)@, r) == old(self)@.pop(),
    {
        match self.pixel_fifo.pop() {
            Ok(p) => Some(p),
            Err(_) => None,
        }
    }

    /// Rewrites queued pixels from position `at` on.
    pub fn overwrite_at(&mut self, at: usize, row: &[BgPixel; 8])
        requires
            old(self).wf(),
        ensures
            final(self).wf(),
            final(self)@ == (FetcherView {
                fifo: overlay(old(self)@.fifo, at as int, row@),
                ..old(self)@
            }),
    {
        self.pixel_fifo.overwrite_at(at, row);
    }

    /// Rewrites the first queued tile.
    pub fn overwrite_oldest(&mut self, row: &[BgPixel; 8])
        requires
            old(self).wf(),
        ensures
            final(self).wf(),
            final(self)@ == (FetcherView { fifo: overlay(old(self)@.fifo, 0, row@), ..old(self)@ }),
    {
        self.pixel_fifo.overwrite_oldest(row);
    }

    /// Rewrites the tile queued last.
    pub fn overwrite_newest(&mut self, row: &[BgPixel; 8])
        requires
            old(self).wf(),
        ensures
            final(self).wf(),
            final(self)@ == old(self)@.with_newest(row@),
    {
        self.pixel_fifo.overwrite_newest(row);
    }

    pub fn get_tile_index(&self) -> (r: u8)
        ensures
            r == self@.tile_index,
    {
        self.tile_index
    }

    /// Replaces the tile number of the fetch in flight.
    pub fn patch_tile_num(&mut self, tile_num: u8)
        requires
            old(self).wf(),
        ensures
            final(self).wf(),
            final(self)@ == (FetcherView { tile_num, ..old(self)@ }),
    {
        self.tile_num = tile_num;
    }

    pub fn last_bg_tn_col(&self) -> (r: u8)
        ensures
            r == self@.last_bg_tn_col,
    {
        self.last_bg_tn_col
    }

    pub fn latched_y(&self) -> (r: u8)
        ensures
            r == self@.latched_y,
    {
        self.latched_y
    }

    pub fn last_low_tds(&self) -> (r: bool)
        ensures
            r == self@.last_low_tds,
    {
        self.last_low_tds
    }

    pub fn last_high_tds(&self) -> (r: bool)
        ensures
            r == self@.last_high_tds,
    {
        self.last_high_tds
    }

    /// Replaces the low plane of the tile row in flight.
    pub fn patch_pixel_buffer_low(&mut self, low_byte: u8)
        requires
            old(self).wf(),
        ensures
            final(self).wf(),
            final(self)@ == old(self)@.with_low(low_byte),
    {
        let mut i: usize = 0;
        while i < 8
            invariant
                i <= 8,
                old(self).wf(),
                self.wf(),
                self@ == (FetcherView { pixel_buffer: self@.pixel_buffer, ..old(self)@ }),
                forall|k: int|
                    0 <= k < i ==> self@.pixel_buffer[k] == (old(self)@.pixel_buffer[k] & !1u8)
                        | row_bit(low_byte, k, false),
                forall|k: int| i <= k < 8 ==> self@.pixel_buffer[k] == old(self)@.pixel_buffer[k],
            decreases 8 - i,
        {
            let bit: u8 = 7 - i as u8;
            self.pixel_buffer[i] = (self.pixel_buffer[i] & !1u8) | ((low_byte >> bit) & 0x01);
            i += 1;
        }
        assert(self@ =~= old(self)@.with_low(low_byte));
    }

    /// Replaces the high plane of the tile row in flight.
    pub fn patch_pixel_buffer_high(&mut self, high_byte: u8)
        requires
            old(self).wf(),
        ensures
            final(self).wf(),
            final(self)@ == old(self)@.with_high(high_byte),
    {
        let mut i: usize = 0;
        while i < 8
            invariant
                i <= 8,
                old(self).wf(),
                self.wf(),
                self@ == (FetcherView { pixel_buffer: self@.pixel_buffer, ..old(self)@ }),
                forall|k: int|
                    0 <= k < i ==> self@.pixel_buffer[k] == (old(self)@.pixel_buffer[k] & !2u8) | (
                    row_bit(high_byte, k, false) << 1),
                forall|k: int| i <= k < 8 ==> self@.pixel_buffer[k] == old(self)@.pixel_buffer[k],
            decreases 8 - i,
        {
            let bit: u8 = 7 - i as u8;
            self.pixel_buffer[i] = (self.pixel_buffer[i] & !2u8) | (((high_byte >> bit) & 0x01)
                << 1);
            i += 1;
        }
        assert(self@ =~= old(self)@.with_high(high_byte));
    }

    /// Reads a map entry as the fetch does.
    fn read_map_byte(&self, mmio: &Mmio, lcdc_state: FetcherLcdcState, offset: u16) -> (r: u8)
        requires
            offset < 0x1000,
        ensures
            r == self@.map_byte(*mmio, lcdc_state, offset as int),
    {
        let base: u16 = if self.fetching_window {
            self.get_window_tile_map_base(lcdc_state.lcdc)
        } else {
            self.get_tile_map_base(lcdc_state.lcdc)
        };
        let byte: u8 = mmio.read_vram_bank(0, base + offset);
        if let Some(l2) = lcdc_state.or_lcdc {
            let alt_base: u16 = if self.fetching_window {
                self.get_window_tile_map_base(l2)
            } else {
                self.get_tile_map_base(l2)
            };
            if alt_base != base {
                return byte | mmio.read_vram_bank(0, alt_base + offset);
            }
        }
        byte
    }

    /// Reads a tile data byte as the fetch does.
    fn read_data_byte(
        &self,
        mmio: &Mmio,
        lcdc_state: FetcherLcdcState,
        tile_line: u8,
        high: bool,
    ) -> (r: u8)
        requires
            tile_line < 8,
        ensures
            r == self@.data_byte(*mmio, lcdc_state, tile_line, high),
    {
        let cgb = mmio.is_cgb_features_enabled();
        let y_flip = cgb && (self.tile_attributes & 0x40) != 0;
        let eff_line: u8 = if y_flip { 7 - tile_line } else { tile_line };
        let plane: u16 = if high { 1 } else { 0 };
        let addr: u16 = self.get_tile_data_address(self.tile_num, eff_line, lcdc_state.lcdc)
            + plane;
        let bank: u8 = if cgb && (self.tile_attributes & 0x08) != 0 { 1 } else { 0 };
        let byte: u8 = if lcdc_state.cgb_tile_index_is_tile_data && self.tile_num < 0x80 {
            self.tile_num
        } else {
            mmio.read_vram_bank(bank, addr)
        };
        if let Some(l2) = lcdc_state.or_lcdc {
            let alt: u16 = self.get_tile_data_address(self.tile_num, eff_line, l2) + plane;
            if alt != addr {
                return byte | mmio.read_vram_bank(bank, alt);
            }
        }
        byte
    }

    /// Makes the reads of the background tile in flight again, as far as they
    /// have been made, under the given bus states.
    pub fn repair(
        &mut self,
        mmio: &Mmio,
        number: FetcherLcdcState,
        low: FetcherLcdcState,
        high: FetcherLcdcState,
    )
        requires
            old(self).wf(),
        ensures
            final(self).wf(),
            final(self)@ == old(self)@.repaired(*mmio, number, low, high),
    {
        reveal(FetcherView::repaired);
        let step: u8 = self.fetch_substep();
        let line: u8 = self.latched_y % 8;
        if step >= 1 {
            let offset: u16 = ((self.latched_y / 8) % 32) as u16 * 32 + self.last_bg_tn_col as u16;
            let tile_num: u8 = self.read_map_byte(mmio, number, offset);
            self.patch_tile_num(tile_num);
        }
        if step >= 2 {
            let byte: u8 = self.read_data_byte(mmio, low, line, false);
            self.patch_pixel_buffer_low(byte);
        }
        if step >= 3 {
            let byte: u8 = self.read_data_byte(mmio, high, line, true);
            self.patch_pixel_buffer_high(byte);
        }
    }

    pub fn is_fetching_window(&self) -> (r: bool)
        ensures
            r == self@.fetching_window,
    {
        self.fetching_window
    }

    pub fn window_x_start_dbg(&self) -> (r: u8)
        ensures
            r == self@.window_x_start,
    {
        self.window_x_start
    }

    pub fn fetch_state_is_tile_number(&self) -> (r: bool)
        ensures
            r == (self@.state is TileNumber),
    {
        matches!(self.state, FetchState::TileNumber)
    }

    /// The step's number, 0 to 3.
    pub fn fetch_substep(&self) -> (r: u8)
        ensures
            r == self@.substep(),
    {
        match self.state {
            FetchState::TileNumber => 0,
            FetchState::TileDataLow => 1,
            FetchState::TileDataHigh => 2,
            FetchState::PushToFIFO => 3,
        }
    }

    /// Position, adjustment and scroll of the last background map read.
    pub fn subcc_last_column_inputs(&self) -> (r: (u16, u8, u8))
        ensures
            r == (self@.subcc_xpos, self@.subcc_cgb_adj, self@.subcc_used_scx),
    {
        (self.subcc_xpos, self.subcc_cgb_adj, self.subcc_used_scx)
    }
}

/// Tile numbers always come from bank 0, whatever bank the CPU selects; the
/// CPU's bank select does not enter into a step at all.
pub proof fn law_fetch_ignores_cpu_bank(
    s: FetcherView,
    m: Mmio,
    vbk: u8,
    ls: FetcherLcdcState,
    pos: FetchPos,
)
    ensures
        s.step(Mmio { vbk, ..m }, ls, pos) == s.step(m, ls, pos),
{
    let m2 = Mmio { vbk, ..m };
    let y = s.fetch_y(m, ls, pos);
    assert(s.fetch_y(m2, ls, pos) == y);
    assert(s.latch_y(m2, ls, pos) == s.latch_y(m, ls, pos));
    let t = s.latch_y(m, ls, pos);
    match s.state {
        FetchState::TileNumber => {
            let c = t.count_down_window();
            let offset = c.map_offset(m, ls, pos);
            let addr = (c.map_base(ls.lcdc) + offset) as u16;
            assert(c.map_offset(m2, ls, pos) == offset);
            assert(c.map_byte(m2, ls, offset) == c.map_byte(m, ls, offset));
            assert(m2.read_vram_bank(1, addr) == m.read_vram_bank(1, addr));
            assert(s.step_tile_number(m2, ls, pos) == s.step_tile_number(m, ls, pos));
        },
        FetchState::TileDataLow => {
            assert(t.data_byte(m2, ls, y % 8, false) == t.data_byte(m, ls, y % 8, false));
            assert(s.step_tile_data(m2, ls, pos, false) == s.step_tile_data(m, ls, pos, false));
        },
        FetchState::TileDataHigh => {
            assert(t.data_byte(m2, ls, y % 8, true) == t.data_byte(m, ls, y % 8, true));
            assert(s.step_tile_data(m2, ls, pos, true) == s.step_tile_data(m, ls, pos, true));
        },
        FetchState::PushToFIFO => {},
    }
}

/// Four steps that are not held up queue one tile: the two data bytes read in
/// between, eight pixels with the tile's attributes, and the fetcher is back at
/// its first step.
pub proof fn law_four_steps_queue_a_tile(
    s: FetcherView,
    m: Mmio,
    ls: FetcherLcdcState,
    pos: FetchPos,
)
    requires
        s.wf(),
        s.state is TileNumber,
        s.fifo.len() <= 8,
    ensures
        ({
            let s1 = s.step(m, ls, pos).0;
            let s2 = s1.step(m, ls, pos).0;
            let s3 = s2.step(m, ls, pos).0;
            let s4 = s3.step(m, ls, pos).0;
            let line = s.fetch_y(m, ls, pos) % 8;
            &&& s4.state is TileNumber
            &&& s4.tile_index == s.tile_index.wrapping_add(1)
            &&& s4.fifo.len() == s.fifo.len() + 8
            &&& s4.fifo.take(s.fifo.len() as int) == s.fifo
            &&& forall|i: int|
                0 <= i < 8 ==> #[trigger] s4.fifo[s.fifo.len() + i] == (BgPixel {
                    color: row_bit(s1.data_byte(m, ls, line, false), i, s1.attr_set(m, 0x20)) | (
                    row_bit(s1.data_byte(m, ls, line, true), i, s1.attr_set(m, 0x20)) << 1),
                    attrs: s1.tile_attributes,
                })
        }),
{
    let s1 = s.step(m, ls, pos).0;
    let s2 = s1.step(m, ls, pos).0;
    let s3 = s2.step(m, ls, pos).0;
    let s4 = s3.step(m, ls, pos).0;
    assert(s4.fifo.take(s.fifo.len() as int) =~= s.fifo);
}


/// A fetcher in its parts, the queue as its pixels.
pub struct FetcherParts {
    pub state: FetchState,
    pub fifo: Vec<BgPixel>,
    pub tile_num: u8,
    pub tile_index: u8,
    pub tile_attributes: u8,
    pub pixel_buffer: [u8; 8],
    pub fetching_window: bool,
    pub window_x_start: u8,
    pub stop_window_after_tiles: u8,
    pub window_revert_at_push: bool,
    pub latched_y: u8,
    pub subcc_xpos: u16,
    pub subcc_cgb_adj: u8,
    pub subcc_used_scx: u8,
    pub last_vram_addr: u16,
    pub last_vram_bank: u8,
    pub last_bg_tn_col: u8,
    pub last_low_tds: bool,
    pub last_high_tds: bool,
    pub stale_tile_num: u8,
    pub stale_tile_attributes: u8,
    pub wx0_glitch_fetches: u8,
}

impl View for FetcherParts {
    type V = FetcherView;

    open spec fn view(&self) -> FetcherView {
        FetcherView {
            state: self.state,
            fifo: self.fifo@,
            tile_num: self.tile_num,
            tile_index: self.tile_index,
            tile_attributes: self.tile_attributes,
            pixel_buffer: self.pixel_buffer@,
            fetching_window: self.fetching_window,
            window_x_start: self.window_x_start,
            stop_window_after_tiles: self.stop_window_after_tiles,
            window_revert_at_push: self.window_revert_at_push,
            latched_y: self.latched_y,
            subcc_xpos: self.subcc_xpos,
            subcc_cgb_adj: self.subcc_cgb_adj,
            subcc_used_scx: self.subcc_used_scx,
            last_vram_addr: self.last_vram_addr,
            last_vram_bank: self.last_vram_bank,
            last_bg_tn_col: self.last_bg_tn_col,
            last_low_tds: self.last_low_tds,
            last_high_tds: self.last_high_tds,
            stale_tile_num: self.stale_tile_num,
            stale_tile_attributes: self.stale_tile_attributes,
            wx0_glitch_fetches: self.wx0_glitch_fetches,
        }
    }
}

impl Fetcher {
    /// Takes the value apart.
    pub fn into_parts(self) -> (r: FetcherParts)
        requires
            self.queue_ok(),
        ensures
            r@ == self@,
    {
        let fifo: Vec<BgPixel> = self.pixel_fifo.pixels();
        FetcherParts {
            state: self.state,
            fifo,
            tile_num: self.tile_num,
            tile_index: self.tile_index,
            tile_attributes: self.tile_attributes,
            pixel_buffer: self.pixel_buffer,
            fetching_window: self.fetching_window,
            window_x_start: self.window_x_start,
            stop_window_after_tiles: self.stop_window_after_tiles,
            window_revert_at_push: self.window_revert_at_push,
            latched_y: self.latched_y,
            subcc_xpos: self.subcc_xpos,
            subcc_cgb_adj: self.subcc_cgb_adj,
            subcc_used_scx: self.subcc_used_scx,
            last_vram_addr: self.last_vram_addr,
            last_vram_bank: self.last_vram_bank,
            last_bg_tn_col: self.last_bg_tn_col,
            last_low_tds: self.last_low_tds,
            last_high_tds: self.last_high_tds,
            stale_tile_num: self.stale_tile_num,
            stale_tile_attributes: self.stale_tile_attributes,
            wx0_glitch_fetches: self.wx0_glitch_fetches,
        }
    }

    /// Puts the value together again.
    pub fn from_parts(parts: FetcherParts) -> (r: Self)
        ensures
            r@ == parts@,
            r.queue_ok(),
    {
        Fetcher {
            state: parts.state,
            pixel_fifo: Fifo::from_pixels(parts.fifo),
            tile_num: parts.tile_num,
            tile_index: parts.tile_index,
            tile_attributes: parts.tile_attributes,
            pixel_buffer: parts.pixel_buffer,
            fetching_window: parts.fetching_window,
            window_x_start: parts.window_x_start,
            stop_window_after_tiles: parts.stop_window_after_tiles,
            window_revert_at_push: parts.window_revert_at_push,
            latched_y: parts.latched_y,
            subcc_xpos: parts.subcc_xpos,
            subcc_cgb_adj: parts.subcc_cgb_adj,
            subcc_used_scx: parts.subcc_used_scx,
            last_vram_addr: parts.last_vram_addr,
            last_vram_bank: parts.last_vram_bank,
            last_bg_tn_col: parts.last_bg_tn_col,
            last_low_tds: parts.last_low_tds,
            last_high_tds: parts.last_high_tds,
            stale_tile_num: parts.stale_tile_num,
            stale_tile_attributes: parts.stale_tile_attributes,
            wx0_glitch_fetches: parts.wx0_glitch_fetches,
        }
    }

    pub fn is_well_formed(&self) -> (r: bool)
        requires
            self.queue_ok(),
        ensures
            r == self@.wf(),
    {
        self.pixel_fifo.size() <= 16 && self.subcc_xpos <= 0x200 && self.subcc_cgb_adj <= 1
    }
}

} // verus!
