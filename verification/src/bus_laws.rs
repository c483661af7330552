//! Writes that meet a fetch: what the video memory bus carries, and what that
//! does to tiles, objects and palettes.

use vstd::prelude::*;

use crate::fetcher::{FetcherDebugEvent, FetcherLcdcState, FetcherView};
use crate::fifo::BgPixel;
use crate::frames::FramesView;
use crate::glitch::{bus_at, bus_reached, grid_shift, plain_bus, with_bus};
use crate::history_laws::{dots_in_order, law_history_by_dot, value_by_dot};
use crate::journal::CapturedTile;
use crate::line_objs::LineObjsView;
use crate::mmio::Mmio;
use crate::objects::{Sprite, SpriteFetchPhase, SpriteFetchRec};
use crate::state::PpuView;
use crate::tile_laws::{bg_entry, bit_of, tile_byte};

verus! {

/// A register that changed once, at `t`: before that the old value is on the
/// bus, at `t` both are, later the new one.
pub proof fn law_one_change_on_the_bus(t: u64, old_v: u8, new_v: u8, h: int, live: u8)
    ensures
        bus_at(seq![(t, old_v, new_v)], h, live) == if h < t {
            (old_v, None)
        } else if h == t {
            (new_v, Some(old_v))
        } else {
            (new_v, None::<u8>)
        },
{
    let hist = seq![(t, old_v, new_v)];
    assert(bus_reached(hist, h, 1) == 1);
}

proof fn lemma_bus_push(hist: Seq<(u64, u8, u8)>, e: (u64, u8, u8), h: int, n: int)
    requires
        0 <= n <= hist.len(),
    ensures
        h < e.0 ==> bus_reached(hist.push(e), h, n) == bus_reached(hist, h, n),
        n <= bus_reached(hist, h, n) <= hist.len(),
        h >= e.0 && bus_reached(hist, h, n) == hist.len() ==> bus_reached(hist.push(e), h, n)
            == hist.len() + 1,
    decreases hist.len() - n,
{
    let more = hist.push(e);
    if n < hist.len() && hist[n].0 <= h {
        assert(more[n] == hist[n]);
        lemma_bus_push(hist, e, h, n + 1);
    } else if n == hist.len() {
        assert(more[n] == e);
        assert(bus_reached(more, h, n + 1) == n + 1);
    } else {
        assert(more[n] == hist[n]);
    }
}

proof fn lemma_bus_all(hist: Seq<(u64, u8, u8)>, h: int, n: int)
    requires
        0 <= n <= hist.len(),
        forall|k: int| 0 <= k < hist.len() ==> (#[trigger] hist[k]).0 <= h,
    ensures
        bus_reached(hist, h, n) == hist.len(),
    decreases hist.len() - n,
{
    if n < hist.len() {
        lemma_bus_all(hist, h, n + 1);
    }
}

/// A later change leaves what the bus carried before it, and is carried from its
/// own dot on.
pub proof fn law_later_change_keeps_the_past(
    hist: Seq<(u64, u8, u8)>,
    e: (u64, u8, u8),
    h: int,
    live: u8,
)
    requires
        hist.len() > 0,
        forall|k: int| 0 <= k < hist.len() ==> (#[trigger] hist[k]).0 <= e.0,
    ensures
        h < e.0 ==> bus_at(hist.push(e), h, live) == bus_at(hist, h, live),
        h == e.0 ==> bus_at(hist.push(e), h, live) == (e.2, Some(e.1)),
        h > e.0 ==> bus_at(hist.push(e), h, live) == (e.2, None::<u8>),
{
    lemma_bus_push(hist, e, h, 0);
    if h >= e.0 {
        lemma_bus_all(hist, h, 0);
    }
}

proof fn lemma_masked(live: u8, v: u8, mask: u8)
    ensures
        ((live & !mask) | (v & mask)) & mask == v & mask,
        ((live & !mask) | (v & mask)) & !mask == live & !mask,
{
    assert(((live & !mask) | (v & mask)) & mask == v & mask && ((live & !mask) | (v & mask)) & !mask
        == live & !mask) by (bit_vector);
}

/// The dot on which the fetcher's present step lies, on a grid that starts at
/// `anchor`: eight dots to a tile, two to a step.
pub open spec fn step_dot(s: PpuView, anchor: int) -> int {
    anchor + 8 * s.fetcher.tile_index + 2 * s.fetcher.substep()
}

/// A window fetch takes bits 6 and 4 of LCDC from the bus as it was on the
/// fetch's own dot, and the others as they are.
pub proof fn law_window_fetch_sees_the_bus(s: PpuView, fls: FetcherLcdcState)
    requires
        s.fetcher.fetching_window,
        !s.wg.wg_cgb,
        s.wg.wg_anchor_cc is Some,
        s.journal.wg_hist.len() > 0,
        s.line.sprites.len() == 0,
    ensures
        ({
            let r = s.wg_apply(fls);
            let on_bus = bus_at(
                s.journal.wg_hist,
                step_dot(s, s.wg.wg_anchor_cc->0 + s.wg.wg_dpre),
                fls.lcdc,
            );
            &&& r.lcdc & 0x50 == on_bus.0 & 0x50
            &&& r.lcdc & !0x50u8 == fls.lcdc & !0x50u8
            &&& r.or_lcdc is Some <==> on_bus.1 is Some
            &&& r.or_lcdc is Some ==> r.or_lcdc->0 & 0x50 == on_bus.1->0 & 0x50 && r.or_lcdc->0
                & !0x50u8 == fls.lcdc & !0x50u8
            &&& r.scx_bus == fls.scx_bus && r.scy_bus == fls.scy_bus
        }),
{
    reveal(PpuView::wg_apply);
    let on_bus = bus_at(
        s.journal.wg_hist,
        step_dot(s, s.wg.wg_anchor_cc->0 + s.wg.wg_dpre),
        fls.lcdc,
    );
    lemma_masked(fls.lcdc, on_bus.0, 0x50);
    if on_bus.1 is Some {
        lemma_masked(fls.lcdc, on_bus.1->0, 0x50);
    }
}

/// A background fetch takes bits 4 and 3, and the scroll registers, from the bus.
pub proof fn law_background_fetch_sees_the_bus(s: PpuView, fls: FetcherLcdcState)
    requires
        !s.fetcher.fetching_window,
        !s.wg.wg_cgb,
        s.wg.bg_anchor_cc is Some,
        s.line.sprites.len() == 0,
    ensures
        ({
            let r = s.bg_wg_apply(fls);
            let at = step_dot(s, s.wg.bg_anchor_cc->0 as int);
            let on_bus = bus_at(s.journal.wg_hist, at, fls.lcdc);
            &&& r.lcdc & 0x18 == on_bus.0 & 0x18
            &&& r.lcdc & !0x18u8 == fls.lcdc & !0x18u8
            &&& s.journal.wg_hist.len() > 0 ==> (r.or_lcdc is Some <==> on_bus.1 is Some)
            &&& s.journal.bg_scy_hist.len() > 0 ==> r.scy_bus == Some(
                bus_at(s.journal.bg_scy_hist, at, 0).0,
            )
            &&& s.journal.bg_scy_hist.len() == 0 ==> r.scy_bus == fls.scy_bus
            &&& s.journal.bg_scx_hist.len() > 0 ==> r.scx_bus == Some(
                bus_at(s.journal.bg_scx_hist, at, 0).0,
            )
            &&& s.journal.bg_scx_hist.len() == 0 ==> r.scx_bus == fls.scx_bus
        }),
{
    reveal(PpuView::bg_wg_apply);
    let on_bus = bus_at(
        s.journal.wg_hist,
        step_dot(s, s.wg.bg_anchor_cc->0 as int),
        fls.lcdc,
    );
    lemma_masked(fls.lcdc, on_bus.0, 0x18);
}

/// In CGB mode, and before a grid is known, fetches see the registers as they
/// are.
pub proof fn law_no_grid_no_bus(s: PpuView, fls: FetcherLcdcState)
    requires
        s.wg.wg_cgb || (s.wg.wg_anchor_cc is None && s.wg.bg_anchor_cc is None),
    ensures
        s.wg_apply(fls) == fls,
        s.bg_wg_apply(fls) == fls,
{
    reveal(PpuView::wg_apply);
    reveal(PpuView::bg_wg_apply);
}

/// A fetched object moves the tiles from the second after its own on by the dots
/// it took; one that was not fetched moves none.
pub proof fn law_object_moves_the_grid(
    line: LineObjsView,
    o: Sprite,
    rec: SpriteFetchRec,
    tile: int,
)
    requires
        line.sprites.len() == line.recs.len(),
    ensures
        ({
            let n = line.sprites.len() as int;
            let more = LineObjsView {
                sprites: line.sprites.push(o),
                recs: line.recs.push(rec),
                ..line
            };
            grid_shift(more, tile, n + 1) == grid_shift(line, tile, n) + if rec.phase
                == SpriteFetchPhase::Fetched && o.x >= 8 && 8 * tile > o.x {
                rec.penalty as int
            } else {
                0
            }
        }),
{
    let n = line.sprites.len() as int;
    let more = LineObjsView { sprites: line.sprites.push(o), recs: line.recs.push(rec), ..line };
    lemma_shift_prefix(line, more, tile, n);
    assert(more.sprites[n] == o);
    assert(more.rec(n) == Some(rec));
}

proof fn lemma_shift_prefix(a: LineObjsView, b: LineObjsView, tile: int, n: int)
    requires
        0 <= n <= a.sprites.len(),
        a.sprites.len() == a.recs.len(),
        b.sprites.len() >= a.sprites.len(),
        b.recs.len() >= a.recs.len(),
        forall|i: int| 0 <= i < a.sprites.len() ==> a.sprites[i] == b.sprites[i] && a.recs[i]
            == b.recs[i],
    ensures
        grid_shift(b, tile, n) == grid_shift(a, tile, n),
    decreases n,
{
    if n > 0 {
        lemma_shift_prefix(a, b, tile, n - 1);
        assert(a.sprites[n - 1] == b.sprites[n - 1]);
        assert(a.recs[n - 1] == b.recs[n - 1]);
    }
}

/// The dot on which an object's byte was read, `back` dots before its fetch
/// ended.
pub open spec fn read_dot(rec: SpriteFetchRec, back: int) -> int {
    let end = rec.arm_tick + rec.penalty;
    if end < back { 0 } else { end - back }
}

/// The height of objects on a dot.
pub open spec fn tall_on(s: PpuView, dot: int) -> bool {
    value_by_dot(s.hist.objsize, dot, s.lcdc.reg & 0x04 != 0)
}

/// An object on a line on which the height changed has each of its two bytes
/// read with the height of its own dot: three and one dots before the fetch ends
/// on DMG hardware, six and three on CGB hardware.
pub proof fn law_object_bytes_are_read_with_their_height(
    s: PpuView,
    m: Mmio,
    o: Sprite,
    rec: SpriteFetchRec,
    col: int,
    sy: u8,
)
    requires
        rec.phase == SpriteFetchPhase::Fetched,
        rec.arm_tick < 0x1_0000_0000,
        dots_in_order(s.hist.objsize),
        !m.cgb_features,
    ensures
        ({
            let compat = m.cgb_hardware;
            let low = tall_on(s, read_dot(rec, if compat { 6 } else { 3 }));
            let high = tall_on(s, read_dot(rec, if compat { 3 } else { 1 }));
            s.pixel_sized(m, o, Some(rec), col, sy) == s.pixel_with_sizes(m, o, col, sy, low, high)
        }),
{
    let compat = m.cgb_hardware;
    law_history_by_dot(
        s.hist.objsize,
        read_dot(rec, if compat { 6 } else { 3 }) as u128,
        s.lcdc.reg & 0x04 != 0,
    );
    law_history_by_dot(
        s.hist.objsize,
        read_dot(rec, if compat { 3 } else { 1 }) as u128,
        s.lcdc.reg & 0x04 != 0,
    );
}

/// The row of an object that is read with height `tall`: rows count from its
/// first line, and from its last if it is mirrored.
pub open spec fn row_with_height(o: Sprite, sy: u8, tall: bool) -> int {
    let line = (sy + 256 - o.y) % if tall { 16int } else { 8 };
    if !o.attributes.y_flip {
        line
    } else if tall {
        15 - line
    } else {
        7 - line
    }
}

/// Where that row lies: sixteen bytes a tile, a tall object's tiles from the even
/// one on.
pub proof fn law_row_lies_in_its_tile(o: Sprite, sy: u8, tall: bool)
    ensures
        crate::color_mix::sized_line_addr(o, sy, tall) == 0x8000 + 16 * (if tall {
            o.tile_index - o.tile_index % 2
        } else {
            o.tile_index as int
        }) + 2 * row_with_height(o, sy, tall),
{
    let line = sy.wrapping_sub(o.y);
    let tile = o.tile_index;
    assert(line & 15 == line % 16 && line & 7 == line % 8 && (line & 15) ^ 15 == 15 - line % 16 && (
    line & 7) ^ 7 == 7 - line % 8 && tile & 0xFE == tile - tile % 2) by (bit_vector);
}

/// On DMG hardware two BGP writes of a line within twelve cycles of each other
/// collide: the later one's pixel shows old and new palette at once, if the
/// background shows there.
pub proof fn law_close_bgp_writes_collide(s: PpuView, m: Mmio)
    requires
        !m.cgb_hardware,
        s.hist.bgp_writes.len() == 2,
        s.hist.bgp_writes[0].0 <= s.hist.bgp_writes[1].0,
        s.hist.bgp_writes[0].1 == 0xFF,
        s.hist.bgp_writes[1].1 < 160,
        s.hist.line_bg_idx.len() == 160,
        s.frames.wf(),
        m.ly < 144,
    ensures
        ({
            let (cc, col, merged) = s.hist.bgp_writes[1];
            let idx = s.hist.line_bg_idx[col as int];
            let at = 160 * m.ly + col;
            let got = s.resolve_bgp_spikes(m).fb_a;
            let close = cc <= s.hist.bgp_writes[0].0 + 12;
            &&& !close || idx < 0 ==> got == s.frames.fb_a
            &&& close && idx >= 0 ==> got == s.frames.fb_a.update(
                at,
                crate::color::bgp_shade(merged, idx as u8),
            )
        }),
{
    reveal(PpuView::resolve_bgp_spikes);
    reveal_with_fuel(PpuView::bgp_spikes, 3);
}

/// The map column of the tile queued last, under scroll `scx`.
pub open spec fn column_under(s: PpuView, scx: u8) -> int {
    ((scx + s.fetcher.subcc_xpos + s.fetcher.subcc_cgb_adj) / 8) % 32
}

/// A scroll write that meets the tile just queued four cycles before its first
/// pixel, at single speed, has the tile read again under the new scroll. Other
/// pixels of the queue stay.
pub proof fn law_scroll_write_rereads_the_tile(s: PpuView, m: Mmio, i: int)
    requires
        s.m3.subcc_rekey_armed,
        !m.double_speed,
        m.cgb_features,
        s.clk.abs_cc + s.fetcher.subcc_xpos - s.x - 4 == s.m3.subcc_scx_apply_cc,
        s.m3.subcc_scx_apply_cc < 0x4000_0000_0000_0000,
        s.fetcher.fifo.len() >= 8,
        0 <= i < s.fetcher.fifo.len(),
    ensures
        ({
            let (r, more) = s.rekey_scroll(m);
            let first = s.fetcher.fifo.len() - 8;
            let moved = column_under(s, s.m3.subcc_scx_new) != column_under(s, s.m3.subcc_scx_old);
            let row: Seq<BgPixel> = s.bg_pixels_at_col(
                m,
                column_under(s, s.m3.subcc_scx_new),
                (s.latch.scy_delayed + m.ly) % 256,
            );
            &&& !more
            &&& !r.m3.subcc_rekey_armed
            &&& r.fetcher.fifo.len() == s.fetcher.fifo.len()
            &&& r.fetcher.fifo[i] == if moved && i >= first { row[i - first] } else {
                s.fetcher.fifo[i]
            }
        }),
{
    reveal(PpuView::rekey_scroll);
    reveal(PpuView::bg_pixels_at_col);
}

/// A scroll write before the first pixel, with a tile queued, has that tile read
/// again under the new scroll; one that the next tile is to be spared keeps that
/// tile under the old one.
pub proof fn law_scroll_writes_before_the_first_pixel(s: PpuView, m: Mmio, i: int)
    requires
        s.fetcher.fifo.len() >= 8,
        0 <= i < s.fetcher.fifo.len(),
    ensures
        ({
            let first = s.fetcher.fifo.len() - 8;
            let new_col = column_under(s, s.m3.subcc_scx_new);
            let old_col = column_under(s, s.m3.subcc_scx_old);
            let y = (s.latch.scy_delayed + m.ly) % 256;
            let p = s.prologue_scroll(m);
            let r = s.revert_scroll(m, false);
            &&& !p.m3.prologue_rekey_armed && !r.m3.subcc_revert_next_old
            &&& p.fetcher.fifo[i] == if s.m3.prologue_rekey_armed && new_col != old_col && i
                >= first {
                s.bg_pixels_at_col(m, new_col, y)[i - first]
            } else {
                s.fetcher.fifo[i]
            }
            &&& r.fetcher.fifo[i] == if s.m3.subcc_revert_next_old && new_col != old_col && i
                >= first {
                s.bg_pixels_at_col(m, old_col, y)[i - first]
            } else {
                s.fetcher.fifo[i]
            }
            &&& s.revert_scroll(m, true) == s
        }),
{
    reveal(PpuView::prologue_scroll);
    reveal(PpuView::revert_scroll);
    reveal(PpuView::bg_pixels_at_col);
}

/// Where a tile of the line was queued is noted on DMG, two at most, in the order
/// they came.
pub proof fn law_tile_starts_are_noted(s: PpuView, m: Mmio, first_x: int)
    requires
        0 <= first_x < 160,
    ensures
        ({
            let r = s.noted_tile_start(m, first_x);
            let a = s.win.we_glitch_tile_start_a;
            let b = s.win.we_glitch_tile_start_b;
            &&& r.we_glitch_tile_start_a == if !m.cgb_features && a is None {
                Some(first_x as u8)
            } else {
                a
            }
            &&& r.we_glitch_tile_start_b == if !m.cgb_features && a is Some && b is None {
                Some(first_x as u8)
            } else {
                b
            }
            &&& r.we_glitch_discard_insert == s.win.we_glitch_discard_insert
        }),
{
    reveal(PpuView::noted_tile_start);
}

/// The colour index of pixel `i` of a captured tile, its bytes taken with the
/// given select bits.
pub open spec fn captured_index(m: Mmio, t: CapturedTile, low: bool, high: bool, i: int) -> int {
    let l = tile_byte(if low { 0x10 } else { 0 }, t.tn, t.y as int % 8, 0);
    let h = tile_byte(if high { 0x10 } else { 0 }, t.tn, t.y as int % 8, 1);
    bit_of(m.vram0[l], 7 - i) + 2 * bit_of(m.vram0[h], 7 - i)
}

/// A captured tile has its two bytes read with the select bits found for them.
pub proof fn law_captured_tile_from_memory(
    m: Mmio,
    t: CapturedTile,
    low: bool,
    high: bool,
    i: int,
)
    requires
        0 <= i < 8,
    ensures
        t.colors(m, low, high)[i] == captured_index(m, t, low, high, i),
{
    assert(0x10u8 & 0x10u8 != 0u8 && 0u8 & 0x10u8 == 0u8) by (bit_vector);
    let l = m.vram0[tile_byte(if low { 0x10 } else { 0 }, t.tn, t.y as int % 8, 0)];
    let h = m.vram0[tile_byte(if high { 0x10 } else { 0 }, t.tn, t.y as int % 8, 1)];
    let bit = (7 - i) as u8;
    assert((((h >> bit) & 1) << 1) | ((l >> bit) & 1) == ((l >> bit) & 1) + 2 * ((h >> bit) & 1))
        by (bit_vector);
}

proof fn lemma_put_again(
    s: PpuView,
    f: FramesView,
    m: Mmio,
    t: CapturedTile,
    colors: Seq<u8>,
    window: bool,
    n: int,
    i: int,
)
    requires
        f.color_fb_a.len() == 69120,
        0 <= n <= 8,
        0 <= i < 8,
        m.ly < 144,
        0 <= t.column(i) < 160,
    ensures
        ({
            let g = s.with_pixels(f, m, t, colors, window, n);
            let at = 3 * (m.ly * 160 + t.column(i));
            let rgb = s.compat_bg_color(m, colors[i]);
            let again = i < n && s.shows_other(t.column(i), colors[i]) && (window || !s.window_took(
                t.column(i),
            ));
            &&& g.color_fb_a.len() == 69120
            &&& again ==> g.color_fb_a[at] == rgb.0 && g.color_fb_a[at + 1] == rgb.1
                && g.color_fb_a[at + 2] == rgb.2
            &&& !again ==> g.color_fb_a[at] == f.color_fb_a[at] && g.color_fb_a[at + 1]
                == f.color_fb_a[at + 1] && g.color_fb_a[at + 2] == f.color_fb_a[at + 2]
        }),
    decreases n,
{
    if n > 0 {
        lemma_put_again(s, f, m, t, colors, window, n - 1, i);
    }
}

/// A window tile was fetched for column `col`.
pub open spec fn window_over(s: PpuView, col: int) -> bool {
    exists|k: int|
        #![trigger s.journal.win_tiles[k]]
        0 <= k < s.journal.win_tiles.len() && s.journal.win_tiles[k].first_x
            - s.journal.win_tiles[k].lead <= col < s.journal.win_tiles[k].first_x
            - s.journal.win_tiles[k].lead + 8
}

/// A tile that turns out otherwise at the line's end is put into the picture
/// again, pixel by pixel, where the background shows and has another colour; a
/// background tile not where the window lies over it.
pub proof fn law_tile_is_put_in_again(
    s: PpuView,
    f: FramesView,
    m: Mmio,
    t: CapturedTile,
    low: bool,
    high: bool,
    window: bool,
    i: int,
)
    requires
        f.color_fb_a.len() == 69120,
        0 <= i < 8,
        m.ly < 144,
        0 <= t.first_x + i - t.lead < 160,
        s.hist.line_bg_idx.len() == 160,
    ensures
        ({
            let g = s.with_pixels(f, m, t, t.colors(m, low, high), window, 8);
            let col = t.first_x + i - t.lead;
            let at = 3 * (160 * m.ly + col);
            let shown = s.hist.line_bg_idx[col];
            let idx = captured_index(m, t, low, high, i);
            let rgb = s.compat_bg_color(m, idx as u8);
            let got = (g.color_fb_a[at], g.color_fb_a[at + 1], g.color_fb_a[at + 2]);
            got == if shown >= 0 && shown != idx && (window || !window_over(s, col)) {
                rgb
            } else {
                (f.color_fb_a[at], f.color_fb_a[at + 1], f.color_fb_a[at + 2])
            }
        }),
{
    law_captured_tile_from_memory(m, t, low, high, i);
    lemma_put_again(s, f, m, t, t.colors(m, low, high), window, 8, i);
    let col = t.first_x + i - t.lead;
    let tiles = s.journal.win_tiles;
    if window_over(s, col) {
        let k = choose|k: int|
            #![trigger tiles[k]]
            0 <= k < tiles.len() && tiles[k].first_x - tiles[k].lead <= col < tiles[k].first_x
                - tiles[k].lead + 8;
        assert(tiles[k].covers(col));
    }
    if s.window_took(col) {
        let k = choose|k: int| 0 <= k < tiles.len() && (#[trigger] tiles[k]).covers(col);
        assert(tiles[k].first_x - tiles[k].lead <= col);
    }
}

/// The select bits of a window tile: those it was read with, where they agree; else
/// the one on the bus in its second step for both bytes.
pub proof fn law_window_selects_come_from_the_bus(s: PpuView, t: CapturedTile)
    requires
        s.wg.wg_anchor_cc is Some,
        s.line.sprites.len() == 0,
    ensures
        ({
            let at = s.wg.wg_anchor_cc->0 + s.wg.wg_dpre + 8 * t.n + 2;
            let on_bus = bus_at(s.journal.wg_hist, at, s.lcdc.reg).0 & 0x10 != 0;
            s.win_selects(t) == if t.live_low_tds == t.live_high_tds {
                (t.live_low_tds, t.live_low_tds)
            } else {
                (on_bus, on_bus)
            }
        }),
{
}

/// A tile queued while writes are on the bus is kept, on CGB hardware without CGB
/// mode, with the columns it was queued for.
pub proof fn law_queued_tile_is_kept(s: PpuView, e: FetcherDebugEvent, first_x: int)
    requires
        s.wg.wg_cgb,
        s.journal.wg_hist.len() > 0,
        -100 <= first_x < 160,
        s.win.win_first_tile_chop <= 7,
    ensures
        ({
            let r = s.capture_tile(e, first_x);
            let tiles = if e.fetching_window { r.journal.win_tiles } else { r.journal.bg_tiles };
            let before = if e.fetching_window { s.journal.win_tiles } else { s.journal.bg_tiles };
            let cut = if e.fetching_window && s.x == 0 { s.win.win_first_tile_chop as int } else {
                0
            };
            &&& tiles.len() == before.len() + 1
            &&& tiles.last().first_x - tiles.last().lead == first_x - cut
            &&& tiles.last().n == e.tile_index
            &&& tiles.last().tn == e.tile_num
            &&& tiles.last().y == if e.fetching_window {
                s.win.win_y_pos
            } else {
                s.fetcher.latched_y
            }
            &&& tiles.last().live_low_tds == s.fetcher.last_low_tds
            &&& tiles.last().live_high_tds == s.fetcher.last_high_tds
            &&& s.win == r.win && s.fetcher == r.fetcher
        }),
{
    reveal(PpuView::capture_tile);
}

/// At double speed a scroll write that comes two cycles after a map read, in
/// fours, has the tile just queued read again under the new scroll on a line
/// without objects; any other leaves it.
pub proof fn law_double_speed_scroll_write(s: PpuView, m: Mmio, i: int)
    requires
        s.m3.subcc_rekey_armed,
        m.double_speed,
        s.line.sprites.len() == 0,
        s.m3.subcc_scx_apply_cc < 0x4000_0000_0000_0000,
        s.fetcher.fifo.len() >= 8,
        0 <= i < s.fetcher.fifo.len(),
    ensures
        ({
            let (r, more) = s.rekey_scroll(m);
            let first = s.fetcher.fifo.len() - 8;
            let moved = column_under(s, s.m3.subcc_scx_new) != column_under(s, s.m3.subcc_scx_old);
            let met = (s.m3.subcc_scx_apply_cc - s.m3.subcc_last_tn_cc) % 4 == 2;
            let row: Seq<BgPixel> = s.bg_pixels_at_col(
                m,
                column_under(s, s.m3.subcc_scx_new),
                (s.latch.scy_delayed + m.ly) % 256,
            );
            &&& !more
            &&& r.fetcher.fifo[i] == if met && moved && i >= first { row[i - first] } else {
                s.fetcher.fifo[i]
            }
        }),
{
    reveal(PpuView::rekey_scroll);
    reveal(PpuView::bg_pixels_at_col);
}

/// With an object near the left edge at double speed the tile is read again under
/// the old scroll instead, where it was queued; on line 0 the next one too, if
/// the leftmost of them lies on an even X.
pub proof fn law_double_speed_scroll_write_by_an_object(s: PpuView, m: Mmio)
    requires
        s.m3.subcc_rekey_armed,
        m.double_speed,
        m.cgb_features,
        s.line.sprites.len() == 1,
        s.line.sprites[0].x <= 16,
        s.m3.subcc_scx_apply_cc < 0x4000_0000_0000_0000,
    ensures
        ({
            let (r, more) = s.rekey_scroll(m);
            let met = (s.m3.subcc_scx_apply_cc - s.m3.subcc_last_tn_cc) % 4 == 2;
            &&& more == (met && m.ly == 0 && s.line.sprites[0].x % 2 == 0)
            &&& more ==> r.m3.ds_straddle_next_old
            &&& !met ==> r.fetcher == s.fetcher
        }),
{
    reveal(PpuView::rekey_scroll);
    reveal_with_fuel(crate::line_objs::leftmost_upto16, 2);
    assert(s.line.sprites.drop_last() =~= Seq::<Sprite>::empty());
    assert(s.line.sprites.last() == s.line.sprites[0]);
    assert(crate::line_objs::has_x_within(s.line.sprites, 0, 16));
}

proof fn lemma_bg_bits(live: u8, v: u8)
    ensures
        ((live & !0x18u8) | (v & 0x18)) & 0x08 == v & 0x08,
        ((live & !0x18u8) | (v & 0x18)) & 0x10 == v & 0x10,
{
    assert(((live & !0x18u8) | (v & 0x18)) & 0x08 == v & 0x08 && ((live & !0x18u8) | (v & 0x18)) & 0x10
        == v & 0x10) by (bit_vector);
}

proof fn lemma_planes_again(p: u8, low: u8, high: u8, bit: u8)
    requires
        p < 4,
        bit < 8,
    ensures
        (((p & !1u8) | ((low >> bit) & 1)) & !2u8) | (((high >> bit) & 1) << 1) == ((low >> bit) & 1)
            + 2 * ((high >> bit) & 1),
{
    assert((((p & !1u8) | ((low >> bit) & 1)) & !2u8) | (((high >> bit) & 1) << 1) == ((low >> bit)
        & 1) + 2 * ((high >> bit) & 1)) by (bit_vector)
        requires
            p < 4,
            bit < 8,
    ;
}

proof fn lemma_repaired(
    f: FetcherView,
    m: Mmio,
    a: FetcherLcdcState,
    b: FetcherLcdcState,
    c: FetcherLcdcState,
    i: int,
)
    requires
        a.or_lcdc is None,
        b.or_lcdc is None,
        c.or_lcdc is None,
        !b.cgb_tile_index_is_tile_data,
        !c.cgb_tile_index_is_tile_data,
        !m.cgb_features,
        !f.fetching_window,
        f.state is PushToFIFO,
        f.last_bg_tn_col < 32,
        f.pixel_buffer[i] < 4,
        0 <= i < 8,
    ensures
        ({
            let r = f.repaired(m, a, b, c);
            let y = f.latched_y as int;
            let tile = m.vram0[bg_entry(a.lcdc, y / 8, f.last_bg_tn_col as int)];
            let low = m.vram0[tile_byte(b.lcdc, tile, y % 8, 0)];
            let high = m.vram0[tile_byte(c.lcdc, tile, y % 8, 1)];
            &&& r.tile_num == tile
            &&& r.pixel_buffer[i] == bit_of(low, 7 - i) + 2 * bit_of(high, 7 - i)
        }),
{
    reveal(FetcherView::repaired);
    let y = f.latched_y as int;
    let tile = m.vram0[bg_entry(a.lcdc, y / 8, f.last_bg_tn_col as int)];
    let low = m.vram0[tile_byte(b.lcdc, tile, y % 8, 0)];
    let high = m.vram0[tile_byte(c.lcdc, tile, y % 8, 1)];
    let line = (f.latched_y % 8) as u8;
    let t1 = FetcherView { tile_num: tile, ..f };
    assert(f.map_byte(m, a, ((f.latched_y / 8) % 32) * 32 + f.last_bg_tn_col) == tile);
    assert(t1.data_byte(m, b, line, false) == low);
    let t2 = t1.with_low(low);
    assert(t2.data_byte(m, c, line, true) == high);
    lemma_planes_again(f.pixel_buffer[i], low, high, (7 - i) as u8);
}

/// A write that becomes known while a background tile waits to be queued has its
/// three reads made again, each with the select bits that the bus had on its own
/// dot: the map at the tile's grid dot, the low byte two dots later and the high
/// byte four.
pub proof fn law_waiting_tile_is_read_again(s: PpuView, m: Mmio, t: u64, o: u8, v: u8, i: int)
    requires
        s.wg.bg_anchor_cc is Some,
        !s.wg.wg_cgb,
        !m.cgb_features,
        !s.fetcher.fetching_window,
        s.fetcher.state is PushToFIFO,
        s.fetcher.last_bg_tn_col < 32,
        s.fetcher.pixel_buffer[i] < 4,
        s.line.sprites.len() == 0,
        s.journal.wg_hist == seq![(t, o, v)],
        t % 2 != (s.wg.bg_anchor_cc->0 as int) % 2,
        0 <= i < 8,
    ensures
        ({
            let r = s.bg_retro_repair(m);
            let h = s.wg.bg_anchor_cc->0 + 8 * s.fetcher.tile_index;
            let first = if h < t { o } else { v };
            let second = if h + 2 < t { o } else { v };
            let third = if h + 4 < t { o } else { v };
            let y = s.fetcher.latched_y as int;
            let tile = m.vram0[bg_entry(first, y / 8, s.fetcher.last_bg_tn_col as int)];
            let low = m.vram0[tile_byte(second, tile, y % 8, 0)];
            let high = m.vram0[tile_byte(third, tile, y % 8, 1)];
            &&& r.tile_num == tile
            &&& r.pixel_buffer[i] == bit_of(low, 7 - i) + 2 * bit_of(high, 7 - i)
        }),
{
    reveal(PpuView::bg_retro_repair);
    let h = s.wg.bg_anchor_cc->0 + 8 * s.fetcher.tile_index;
    let reg = s.lcdc.reg;
    law_one_change_on_the_bus(t, o, v, h, reg);
    law_one_change_on_the_bus(t, o, v, h + 2, reg);
    law_one_change_on_the_bus(t, o, v, h + 4, reg);
    lemma_bg_bits(reg, o);
    lemma_bg_bits(reg, v);
    let fls = plain_bus(reg);
    let hist = s.journal.wg_hist;
    lemma_repaired(
        s.fetcher,
        m,
        with_bus(fls, hist, h, 0x18),
        with_bus(fls, hist, h + 2, 0x18),
        with_bus(fls, hist, h + 4, 0x18),
        i,
    );
}

/// The background's colour index is noted for a column where the background shows:
/// not where it is off, nor where the pixel has another shade than it gives.
pub proof fn law_shown_background_is_noted(s: PpuView, m: Mmio, p: BgPixel)
    requires
        s.x < 160,
        s.hist.line_bg_idx.len() == 160,
        s.frames.wf(),
        m.ly < 144,
        p.color < 4,
    ensures
        ({
            let r = s.plot_mono(m, p);
            let shown = r.frames.fb_a[160 * m.ly + s.x];
            let on = s.bgen_at(s.x);
            r.hist.line_bg_idx[s.x as int] == if on && shown == s.palette_color(m, p.color, s.x) {
                p.color as int
            } else {
                -1
            }
        }),
{
    reveal(PpuView::plot_mono);
}

/// The select bits of a background tile are those on the bus in its second and
/// third step, eight dots a tile and two a step from the grid's start.
pub proof fn law_background_selects_come_from_the_bus(s: PpuView, t: CapturedTile)
    requires
        s.wg.bg_anchor_cc is Some,
        s.line.sprites.len() == 0,
    ensures
        ({
            let at = s.wg.bg_anchor_cc->0 + 8 * t.n;
            let (low, high) = s.bg_selects(t);
            &&& low == (bus_at(s.journal.wg_hist, at + 2, s.lcdc.reg).0 & 0x10 != 0)
            &&& high == (bus_at(s.journal.wg_hist, at + 4, s.lcdc.reg).0 & 0x10 != 0)
        }),
{
}

} // verus!
