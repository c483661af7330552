//! Where tiles come from: the maps, the tile data and the pixels made of them,
//! in terms of video memory and of the registers' bits.

use vstd::prelude::*;

use crate::fetcher::{FetchPos, FetcherLcdcState, FetcherView};
use crate::fifo::BgPixel;
use crate::mmio::Mmio;
use crate::state::PpuView;

verus! {

/// SCY as the fetch finds it.
pub open spec fn fetch_scy(ls: FetcherLcdcState, pos: FetchPos) -> int {
    if ls.scy_bus is Some { ls.scy_bus->0 as int } else { pos.scy as int }
}

/// SCX as the fetch finds it.
pub open spec fn fetch_scx(ls: FetcherLcdcState, pos: FetchPos) -> int {
    if ls.scx_bus is Some { ls.scx_bus->0 as int } else { pos.scx as int }
}

/// The offset in video memory of a background map entry: 32 entries to a row,
/// and the second map where bit 3 of LCDC is set.
pub open spec fn bg_entry(lcdc: u8, row: int, column: int) -> int {
    (if lcdc & 0x08 != 0 { 0x1C00int } else { 0x1800 }) + 32 * row + column
}

/// The same for the window, by bit 6.
pub open spec fn win_entry(lcdc: u8, row: int, column: int) -> int {
    (if lcdc & 0x40 != 0 { 0x1C00int } else { 0x1800 }) + 32 * row + column
}

proof fn lemma_row(ly: u8, scy: u8)
    ensures
        (ly.wrapping_add(scy) / 8) as int % 32 == ((ly + scy) / 8) % 32,
        0 <= ((ly + scy) / 8) % 32 < 32,
{
}

proof fn lemma_map_offset(s: FetcherView, m: Mmio, ls: FetcherLcdcState, pos: FetchPos)
    requires
        s.state is TileNumber,
        !s.fetching_window,
        pos.display_x + s.fifo.len() >= pos.pending_discard,
    ensures
        ({
            let row = ((m.ly + fetch_scy(ls, pos)) / 8) % 32;
            let ahead = if !m.cgb_hardware && pos.display_x > 0 { 1int } else { 0 };
            let column = ((fetch_scx(ls, pos) + pos.display_x + s.fifo.len() - pos.pending_discard
                + ahead) / 8) % 32;
            let read = s.latch_y(m, ls, pos).count_down_window();
            &&& read.map_offset(m, ls, pos) == 32 * row + column
            &&& 0 <= row < 32
            &&& 0 <= column < 32
        }),
{
    lemma_row(m.ly, fetch_scy(ls, pos) as u8);
}

/// A background fetch reads the map that bit 3 of LCDC selects, in the row that
/// LY and SCY give and the column that SCX and the screen position give. A DMG
/// counts a pixel more once the line has begun.
pub proof fn law_background_fetch_reads_its_map(
    s: FetcherView,
    m: Mmio,
    ls: FetcherLcdcState,
    pos: FetchPos,
)
    requires
        s.wf(),
        s.state is TileNumber,
        !s.fetching_window,
        ls.or_lcdc is None,
        pos.display_x + s.fifo.len() >= pos.pending_discard,
    ensures
        ({
            let t = s.step(m, ls, pos).0;
            let row = ((m.ly + fetch_scy(ls, pos)) / 8) % 32;
            let ahead = if !m.cgb_hardware && pos.display_x > 0 { 1int } else { 0 };
            let column = ((fetch_scx(ls, pos) + pos.display_x + s.fifo.len() - pos.pending_discard
                + ahead) / 8) % 32;
            let entry = bg_entry(ls.lcdc, row, column);
            &&& t.tile_num == m.vram0[entry]
            &&& t.tile_attributes == if m.cgb_features { m.vram1[entry] } else { 0 }
            &&& t.last_vram_addr == 0x8000 + entry
            &&& t.state is TileDataLow
            &&& t.fifo == s.fifo
            &&& !t.fetching_window
        }),
{
    lemma_map_offset(s, m, ls, pos);
}

/// What the second map holds does not matter to a background fetch that bit 3
/// sends to the first, nor the other way round.
pub proof fn law_background_fetch_reads_no_other_map(
    s: FetcherView,
    m: Mmio,
    other: Mmio,
    ls: FetcherLcdcState,
    pos: FetchPos,
)
    requires
        s.wf(),
        s.state is TileNumber,
        !s.fetching_window,
        ls.or_lcdc is None,
        pos.display_x + s.fifo.len() >= pos.pending_discard,
        other == (Mmio { vram0: other.vram0, ..m }),
        forall|i: int|
            0x1800 <= i < 0x2000 && (i >= 0x1C00 <==> ls.lcdc & 0x08 != 0) ==> other.vram0[i]
                == m.vram0[i],
    ensures
        s.step(other, ls, pos).0.tile_num == s.step(m, ls, pos).0.tile_num,
{
    law_background_fetch_reads_its_map(s, m, ls, pos);
    law_background_fetch_reads_its_map(s, other, ls, pos);
}

/// A window fetch reads the map that bit 6 of LCDC selects, in the row that the
/// window's own line gives; its columns are counted from the window's start.
pub proof fn law_window_fetch_reads_its_map(
    s: FetcherView,
    m: Mmio,
    ls: FetcherLcdcState,
    pos: FetchPos,
)
    requires
        s.wf(),
        s.state is TileNumber,
        s.fetching_window,
        s.wx0_glitch_fetches == 0,
        s.tile_index < 32,
        ls.or_lcdc is None,
    ensures
        ({
            let t = s.step(m, ls, pos).0;
            let entry = win_entry(ls.lcdc, pos.window_line as int / 8, s.tile_index as int);
            &&& t.tile_num == m.vram0[entry]
            &&& t.tile_attributes == if m.cgb_features { m.vram1[entry] } else { 0 }
            &&& t.state is TileDataLow
            &&& t.fetching_window
        }),
{
}

/// A read on the very dot of a map switch gets both maps' bytes at once.
pub proof fn law_map_switch_reads_both_maps(
    s: FetcherView,
    m: Mmio,
    ls: FetcherLcdcState,
    pos: FetchPos,
    l2: u8,
)
    requires
        s.wf(),
        s.state is TileNumber,
        !s.fetching_window,
        ls.or_lcdc == Some(l2),
        pos.display_x + s.fifo.len() >= pos.pending_discard,
    ensures
        ({
            let row = ((m.ly + fetch_scy(ls, pos)) / 8) % 32;
            let ahead = if !m.cgb_hardware && pos.display_x > 0 { 1int } else { 0 };
            let column = ((fetch_scx(ls, pos) + pos.display_x + s.fifo.len() - pos.pending_discard
                + ahead) / 8) % 32;
            let a = m.vram0[bg_entry(ls.lcdc, row, column)];
            let b = m.vram0[bg_entry(l2, row, column)];
            s.step(m, ls, pos).0.tile_num == a | b
        }),
{
    lemma_map_offset(s, m, ls, pos);
    let row = ((m.ly + fetch_scy(ls, pos)) / 8) % 32;
    let ahead = if !m.cgb_hardware && pos.display_x > 0 { 1int } else { 0 };
    let column = ((fetch_scx(ls, pos) + pos.display_x + s.fifo.len() - pos.pending_discard + ahead)
        / 8) % 32;
    let a = m.vram0[bg_entry(ls.lcdc, row, column)];
    assert(a | a == a) by (bit_vector);
}

/// The offset in video memory of byte `plane` of row `row` of a tile: from the
/// start where bit 4 of LCDC is set, else around 0x1000 by the signed number.
pub open spec fn tile_byte(lcdc: u8, tile: u8, row: int, plane: int) -> int {
    (if lcdc & 0x10 != 0 {
        16 * tile
    } else if tile < 128 {
        0x1000 + 16 * tile
    } else {
        0x1000 + 16 * (tile - 256)
    }) + 2 * row + plane
}

/// Bit `n` of a byte.
pub open spec fn bit_of(byte: u8, n: int) -> int {
    ((byte >> (n as u8)) & 1) as int
}

/// The byte of bank 1 or bank 0.
pub open spec fn banked(m: Mmio, second: bool, at: int) -> u8 {
    if second { m.vram1[at] } else { m.vram0[at] }
}

/// The row of the tile that a fetch is for.
pub open spec fn fetch_row(s: FetcherView, m: Mmio, ls: FetcherLcdcState, pos: FetchPos) -> int {
    if s.fetching_window { pos.window_line as int % 8 } else { (m.ly + fetch_scy(ls, pos)) % 8 }
}

/// The two data steps read the two bytes of the tile's row: in CGB mode from the
/// bank that attribute bit 3 names, upside down by bit 6. The leftmost pixel has
/// the highest bits, or the lowest by attribute bit 5, and the second byte is
/// worth twice the first.
pub proof fn law_data_steps_read_the_row(
    s: FetcherView,
    m: Mmio,
    ls: FetcherLcdcState,
    pos: FetchPos,
    i: int,
)
    requires
        s.wf(),
        s.state is TileDataLow,
        ls.or_lcdc is None,
        !ls.cgb_tile_index_is_tile_data || s.tile_num >= 0x80,
        0 <= i < 8,
    ensures
        ({
            let t = s.step(m, ls, pos).0;
            let u = t.step(m, ls, pos).0;
            let attrs = if m.cgb_features { s.tile_attributes } else { 0 };
            let line = fetch_row(s, m, ls, pos);
            let row = if attrs & 0x40 != 0 { 7 - line } else { line };
            let second = attrs & 0x08 != 0;
            let low = banked(m, second, tile_byte(ls.lcdc, s.tile_num, row, 0));
            let high = banked(m, second, tile_byte(ls.lcdc, s.tile_num, row, 1));
            let bit = if attrs & 0x20 != 0 { i } else { 7 - i };
            &&& t.state is TileDataHigh && u.state is PushToFIFO
            &&& t.pixel_buffer[i] == bit_of(low, bit)
            &&& u.pixel_buffer[i] == bit_of(low, bit) + 2 * bit_of(high, bit)
            &&& u.tile_num == s.tile_num && u.tile_attributes == s.tile_attributes
            &&& u.fifo == s.fifo
        }),
{
    let y = if s.fetching_window {
        pos.window_line
    } else {
        m.ly.wrapping_add(fetch_scy(ls, pos) as u8)
    };
    assert(y as int % 8 == fetch_row(s, m, ls, pos));
    assert(0u8 & 0x40u8 == 0u8 && 0u8 & 0x08u8 == 0u8 && 0u8 & 0x20u8 == 0u8) by (bit_vector);
    let t = s.step(m, ls, pos).0;
    let attrs = if m.cgb_features { s.tile_attributes } else { 0 };
    let line = fetch_row(s, m, ls, pos);
    let row = if attrs & 0x40 != 0 { 7 - line } else { line };
    let second = attrs & 0x08 != 0;
    let low = banked(m, second, tile_byte(ls.lcdc, s.tile_num, row, 0));
    let high = banked(m, second, tile_byte(ls.lcdc, s.tile_num, row, 1));
    let bit = (if attrs & 0x20 != 0 { i } else { 7 - i }) as u8;
    assert(s.data_byte(m, ls, y % 8, false) == low);
    assert(t.data_byte(m, ls, y % 8, true) == high);
    assert(((low >> bit) & 1) | (((high >> bit) & 1) << 1) == ((low >> bit) & 1) + 2 * ((high >> bit)
        & 1)) by (bit_vector);
}

/// The glitch of a falling tile data select: a tile below 0x80 reads as its own
/// number.
pub proof fn law_glitched_read_gives_the_number(
    s: FetcherView,
    m: Mmio,
    ls: FetcherLcdcState,
    pos: FetchPos,
    i: int,
)
    requires
        s.wf(),
        s.state is TileDataLow,
        ls.or_lcdc is None,
        ls.cgb_tile_index_is_tile_data,
        s.tile_num < 0x80,
        0 <= i < 8,
    ensures
        ({
            let attrs = if m.cgb_features { s.tile_attributes } else { 0 };
            let bit = if attrs & 0x20 != 0 { i } else { 7 - i };
            s.step(m, ls, pos).0.pixel_buffer[i] == bit_of(s.tile_num, bit)
        }),
{
    assert(0u8 & 0x20u8 == 0u8) by (bit_vector);
}

/// The last step puts the tile's pixels behind those that are queued, the
/// leftmost first, all with the tile's attributes; while more than a tile is
/// queued it waits.
pub proof fn law_push_queues_the_row(
    s: FetcherView,
    m: Mmio,
    ls: FetcherLcdcState,
    pos: FetchPos,
    i: int,
)
    requires
        s.wf(),
        s.state is PushToFIFO,
        0 <= i < 8,
    ensures
        ({
            let (t, e) = s.step(m, ls, pos);
            if s.fifo.len() > 8 {
                t == s && e is None
            } else {
                &&& t.fifo.len() == s.fifo.len() + 8
                &&& t.fifo[s.fifo.len() + i] == (BgPixel {
                    color: s.pixel_buffer[i],
                    attrs: s.tile_attributes,
                })
                &&& forall|k: int| 0 <= k < s.fifo.len() ==> t.fifo[k] == #[trigger] s.fifo[k]
                &&& t.tile_index == (s.tile_index + 1) % 256
                &&& t.state is TileNumber
            }
        }),
{
}

/// The whole of a background tile on a bus where nothing changes: four steps
/// queue eight pixels, and pixel `i` is made of the two bytes of its row of the
/// tile that the map names, without CGB mode.
pub proof fn law_background_tile_from_memory(
    s: FetcherView,
    m: Mmio,
    ls: FetcherLcdcState,
    pos: FetchPos,
    i: int,
)
    requires
        s.wf(),
        s.state is TileNumber,
        !s.fetching_window,
        s.fifo.len() <= 8,
        ls.or_lcdc is None,
        !ls.cgb_tile_index_is_tile_data,
        !m.cgb_features,
        pos.display_x + s.fifo.len() >= pos.pending_discard,
        0 <= i < 8,
    ensures
        ({
            let s4 = s.step(m, ls, pos).0.step(m, ls, pos).0.step(m, ls, pos).0.step(
                m,
                ls,
                pos,
            ).0;
            let y = m.ly + fetch_scy(ls, pos);
            let ahead = if !m.cgb_hardware && pos.display_x > 0 { 1int } else { 0 };
            let column = ((fetch_scx(ls, pos) + pos.display_x + s.fifo.len() - pos.pending_discard
                + ahead) / 8) % 32;
            let tile = m.vram0[bg_entry(ls.lcdc, (y / 8) % 32, column)];
            let low = m.vram0[tile_byte(ls.lcdc, tile, y % 8, 0)];
            let high = m.vram0[tile_byte(ls.lcdc, tile, y % 8, 1)];
            &&& s4.fifo[s.fifo.len() + i].color == bit_of(low, 7 - i) + 2 * bit_of(high, 7 - i)
            &&& s4.fifo[s.fifo.len() + i].attrs == 0
            &&& s4.fifo.len() == s.fifo.len() + 8
        }),
{
    law_background_fetch_reads_its_map(s, m, ls, pos);
    let s1 = s.step(m, ls, pos).0;
    law_data_steps_read_the_row(s1, m, ls, pos, i);
    let s3 = s1.step(m, ls, pos).0.step(m, ls, pos).0;
    law_push_queues_the_row(s3, m, ls, pos, i);
    assert(0u8 & 0x40u8 == 0u8 && 0u8 & 0x08u8 == 0u8 && 0u8 & 0x20u8 == 0u8) by (bit_vector);
}

/// Without a write on its way the fetcher works with LCDC as it is.
pub proof fn law_settled_lcdc_reaches_the_fetcher(s: PpuView)
    requires
        s.lcdc.lcdc_b4_exact is None,
        s.journal.wg_hist.len() == 0,
        s.journal.bg_scy_hist.len() == 0,
        s.journal.bg_scx_hist.len() == 0,
    ensures
        ({
            let f = s.bg_wg_apply(s.wg_apply(s.fetcher_lcdc_state()));
            &&& f.lcdc == s.lcdc.reg
            &&& f.or_lcdc is None && f.scy_bus is None && f.scx_bus is None
        }),
{
    crate::glitch::law_quiet_bus_changes_nothing(s, s.fetcher_lcdc_state());
}

/// A fetching dot of mode 3 reads the map that LCDC selects now, with the scroll
/// registers as they have reached the fetcher.
pub proof fn law_fetching_dot_reads_its_map(s: PpuView, m: Mmio, discard: u8)
    requires
        s.wf(),
        s.fetcher.state is TileNumber,
        !s.fetcher.fetching_window,
        s.lcdc.lcdc_b4_exact is None,
        s.journal.wg_hist.len() == 0,
        s.journal.bg_scy_hist.len() == 0,
        s.journal.bg_scx_hist.len() == 0,
        s.x + s.fetcher.fifo.len() >= discard,
    ensures
        ({
            let f = s.bg_wg_apply(s.wg_apply(s.fetcher_lcdc_state()));
            let t = s.fetch_step(m, true, f, discard).0;
            let ahead = if !m.cgb_hardware && s.x > 0 { 1int } else { 0 };
            let row = ((m.ly + s.latch.scy_delayed) / 8) % 32;
            let column = ((s.latch.scx_delayed + s.x + s.fetcher.fifo.len() - discard + ahead) / 8)
                % 32;
            t.fetcher.tile_num == m.vram0[bg_entry(s.lcdc.reg, row, column)]
        }),
{
    law_settled_lcdc_reaches_the_fetcher(s);
    let f = s.bg_wg_apply(s.wg_apply(s.fetcher_lcdc_state()));
    law_background_fetch_reads_its_map(s.fetcher, m, f, s.fetch_pos(discard));
    reveal(PpuView::fetch_step);
}

/// The same for a window fetch, by the window's own line count.
pub proof fn law_fetching_dot_reads_the_window_map(s: PpuView, m: Mmio, discard: u8)
    requires
        s.wf(),
        s.fetcher.state is TileNumber,
        s.fetcher.fetching_window,
        s.fetcher.wx0_glitch_fetches == 0,
        s.fetcher.tile_index < 32,
        s.lcdc.lcdc_b4_exact is None,
        s.journal.wg_hist.len() == 0,
        s.journal.bg_scy_hist.len() == 0,
        s.journal.bg_scx_hist.len() == 0,
    ensures
        ({
            let f = s.bg_wg_apply(s.wg_apply(s.fetcher_lcdc_state()));
            let t = s.fetch_step(m, true, f, discard).0;
            t.fetcher.tile_num == m.vram0[win_entry(
                s.lcdc.reg,
                s.win.win_y_pos as int / 8,
                s.fetcher.tile_index as int,
            )]
        }),
{
    law_settled_lcdc_reaches_the_fetcher(s);
    let f = s.bg_wg_apply(s.wg_apply(s.fetcher_lcdc_state()));
    law_window_fetch_reads_its_map(s.fetcher, m, f, s.fetch_pos(discard));
    reveal(PpuView::fetch_step);
}

/// A tile that is read again at a map column comes from the map and the tile
/// data that LCDC selects, without CGB mode.
pub proof fn law_reread_tile_from_memory(s: PpuView, m: Mmio, column: int, y: int, i: int)
    requires
        0 <= column < 32,
        0 <= y < 256,
        0 <= i < 8,
    ensures
        ({
            let entry = bg_entry(s.lcdc.reg, y / 8, column);
            let tile = m.vram0[entry];
            let attrs = if m.cgb_features { m.vram1[entry] } else { 0 };
            let second = m.cgb_features && attrs & 0x08 != 0;
            let row = if m.cgb_features && attrs & 0x40 != 0 { 7 - y % 8 } else { y % 8 };
            let bit = if m.cgb_features && attrs & 0x20 != 0 { i } else { 7 - i };
            let low = banked(m, second, tile_byte(s.lcdc.reg, tile, row, 0));
            let high = banked(m, second, tile_byte(s.lcdc.reg, tile, row, 1));
            s.bg_pixels_at_col(m, column, y)[i] == (BgPixel {
                color: (bit_of(low, bit) + 2 * bit_of(high, bit)) as u8,
                attrs,
            })
        }),
{
    reveal(PpuView::bg_pixels_at_col);
    let entry = bg_entry(s.lcdc.reg, y / 8, column);
    let tile = m.vram0[entry];
    let attrs = if m.cgb_features { m.vram1[entry] } else { 0 };
    let second = m.cgb_features && attrs & 0x08 != 0;
    let row = if m.cgb_features && attrs & 0x40 != 0 { 7 - y % 8 } else { y % 8 };
    let bit = (if m.cgb_features && attrs & 0x20 != 0 { i } else { 7 - i }) as u8;
    let low = banked(m, second, tile_byte(s.lcdc.reg, tile, row, 0));
    let high = banked(m, second, tile_byte(s.lcdc.reg, tile, row, 1));
    assert((((high >> bit) & 1) << 1) | ((low >> bit) & 1) == ((low >> bit) & 1) + 2 * ((high >> bit)
        & 1) && (high >> bit) & 1 <= 1 && (low >> bit) & 1 <= 1) by (bit_vector);
}

/// A read of tile data on the very dot of a switch of bit 4 gets both places'
/// bytes at once.
pub proof fn law_data_switch_reads_both_places(
    s: FetcherView,
    m: Mmio,
    ls: FetcherLcdcState,
    l2: u8,
    line: u8,
    high: bool,
)
    requires
        line < 8,
        ls.or_lcdc == Some(l2),
        !ls.cgb_tile_index_is_tile_data,
        !m.cgb_features,
    ensures
        ({
            let plane = if high { 1int } else { 0 };
            let a = m.vram0[tile_byte(ls.lcdc, s.tile_num, line as int, plane)];
            let b = m.vram0[tile_byte(l2, s.tile_num, line as int, plane)];
            s.data_byte(m, ls, line, high) == a | b
        }),
{
    let plane = if high { 1int } else { 0 };
    let a = m.vram0[tile_byte(ls.lcdc, s.tile_num, line as int, plane)];
    assert(a | a == a) by (bit_vector);
}

/// A window that is switched off with tiles still to come counts them down, one
/// for each map read, and gives way as the last of them is queued.
pub proof fn law_window_runs_out(s: FetcherView, m: Mmio, ls: FetcherLcdcState, pos: FetchPos)
    requires
        s.wf(),
        s.fetching_window,
    ensures
        ({
            let t = s.step(m, ls, pos).0;
            let left = s.stop_window_after_tiles;
            &&& s.state is TileNumber && left > 0 ==> t.stop_window_after_tiles == left - 1
                && t.window_revert_at_push == (s.window_revert_at_push || left == 1)
            &&& s.state is TileNumber && left == 0 ==> t.stop_window_after_tiles == 0
                && t.window_revert_at_push == s.window_revert_at_push
            &&& s.state is PushToFIFO && s.fifo.len() <= 8 ==> t.fetching_window
                == !s.window_revert_at_push && !t.window_revert_at_push
            &&& !(s.state is PushToFIFO) ==> t.fetching_window
        }),
{
}

/// A window that starts at WX 0 with a fine scroll takes its first tiles from the
/// tile that the line before left behind.
pub proof fn law_stale_tile_is_taken(s: FetcherView, m: Mmio, ls: FetcherLcdcState, pos: FetchPos)
    requires
        s.wf(),
        s.state is TileNumber,
        s.fetching_window,
        s.wx0_glitch_fetches > 0,
    ensures
        ({
            let t = s.step(m, ls, pos).0;
            &&& t.tile_num == s.stale_tile_num
            &&& m.cgb_features ==> t.tile_attributes == s.stale_tile_attributes
            &&& t.wx0_glitch_fetches == s.wx0_glitch_fetches - 1
            &&& s.reset().stale_tile_num == s.tile_num
            &&& s.reset().stale_tile_attributes == s.tile_attributes
            &&& s.reset().fifo.len() == 0
            &&& s.reset().tile_index == 0
            &&& !s.reset().fetching_window
        }),
{
}

} // verus!
