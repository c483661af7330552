//! Super Game Boy pictures, told by the bytes they are made of.

use vstd::prelude::*;

use crate::color::rgb888;
use crate::sgb::{MaskMode, Sgb, SgbBorder};
use crate::sgb_picture::{covered_pixel, covers_window, overlay_layer, FrameView};

verus! {

/// Bit `7 - x` of a byte: the pixel in column `x` of a tile row.
pub open spec fn pixel_bit(byte: u8, x: int) -> int {
    ((byte >> ((7 - x) as u8)) & 1) as int
}

/// Where the map holds the entry of the tile at (`tx`, `ty`).
pub open spec fn entry_at(tx: int, ty: int) -> int {
    64 * ty + 2 * tx
}

/// Two borders that differ only in the high byte of the entry at (`tx`, `ty`),
/// and there only by `bit`.
pub open spec fn differ_by(a: SgbBorder, b: SgbBorder, tx: int, ty: int, bit: u8) -> bool {
    let e = entry_at(tx, ty);
    &&& a.wf() && b.wf()
    &&& a.tiles@ == b.tiles@
    &&& a.pals@ == b.pals@
    &&& b.map@ == a.map@.update(e + 1, a.map@[e + 1] ^ bit)
}

proof fn lemma_entry(tx: int, ty: int, x: int, y: int)
    requires
        0 <= tx < 32,
        0 <= ty < 28,
        0 <= x < 8,
        0 <= y < 8,
    ensures
        ({
            let px = 8 * tx + x;
            let py = 8 * ty + y;
            &&& ((py / 8) * 32 + px / 8) * 2 == entry_at(tx, ty)
            &&& px % 8 == x
            &&& py % 8 == y
        }),
{
}

/// Bit 14 of a map entry mirrors its tile left to right: the pixel in column `x`
/// of the one border is the pixel in column `7 - x` of the other.
pub proof fn law_bit_14_mirrors_columns(
    a: SgbBorder,
    b: SgbBorder,
    tx: int,
    ty: int,
    x: int,
    y: int,
)
    requires
        0 <= tx < 32,
        0 <= ty < 28,
        0 <= x < 8,
        0 <= y < 8,
        differ_by(a, b, tx, ty, 0x40),
    ensures
        a.color_at(8 * tx + x, 8 * ty + y) == b.color_at(8 * tx + (7 - x), 8 * ty + y),
{
    reveal(SgbBorder::color_at);
    lemma_entry(tx, ty, x, y);
    lemma_entry(tx, ty, 7 - x, y);
    let e = entry_at(tx, ty);
    let hi = a.map@[e + 1];
    assert((hi ^ 0x40) / 64 % 2 != hi / 64 % 2 && ((hi ^ 0x40) >= 128) == (hi >= 128) && (hi ^ 0x40)
        % 4 == hi % 4 && (hi ^ 0x40) / 4 % 8 == hi / 4 % 8 && (hi ^ 0x40) / 4 % 4 == hi / 4 % 4)
        by (bit_vector);
    assert(b.map@[e] == a.map@[e]);
}

/// Bit 15 of a map entry mirrors its tile top to bottom.
pub proof fn law_bit_15_mirrors_rows(
    a: SgbBorder,
    b: SgbBorder,
    tx: int,
    ty: int,
    x: int,
    y: int,
)
    requires
        0 <= tx < 32,
        0 <= ty < 28,
        0 <= x < 8,
        0 <= y < 8,
        differ_by(a, b, tx, ty, 0x80),
    ensures
        a.color_at(8 * tx + x, 8 * ty + y) == b.color_at(8 * tx + x, 8 * ty + (7 - y)),
{
    reveal(SgbBorder::color_at);
    lemma_entry(tx, ty, x, y);
    lemma_entry(tx, ty, x, 7 - y);
    let e = entry_at(tx, ty);
    let hi = a.map@[e + 1];
    assert((hi ^ 0x80) / 64 % 2 == hi / 64 % 2 && ((hi ^ 0x80) >= 128) != (hi >= 128) && (hi ^ 0x80)
        % 4 == hi % 4 && (hi ^ 0x80) / 4 % 8 == hi / 4 % 8 && (hi ^ 0x80) / 4 % 4 == hi / 4 % 4)
        by (bit_vector);
    assert(b.map@[e] == a.map@[e]);
}

/// A tile with neither mirror bit: column 0 is the top bit of the row's bytes.
/// A row's bytes stand at twice its number, the third and fourth plane 16
/// further on. Bits 10 to 12 of the entry name the palette; of four palettes,
/// bits 10 and 11 do. A tile number of 256 or more shows nothing.
pub proof fn law_plain_tile_pixel(b: SgbBorder, tx: int, ty: int, x: int, y: int)
    requires
        b.wf(),
        0 <= tx < 32,
        0 <= ty < 28,
        0 <= x < 8,
        0 <= y < 8,
        b.map@[entry_at(tx, ty) + 1] & 0xC0 == 0,
    ensures
        ({
            let lo = b.map@[entry_at(tx, ty)];
            let hi = b.map@[entry_at(tx, ty) + 1];
            let row = 32 * lo + 2 * y;
            let n = pixel_bit(b.tiles@[row], x) + 2 * pixel_bit(b.tiles@[row + 1], x) + 4
                * pixel_bit(b.tiles@[row + 16], x) + 8 * pixel_bit(b.tiles@[row + 17], x);
            let pal = if b.pals@.len() >= 128 { (hi >> 2) & 7 } else { (hi >> 2) & 3 };
            b.color_at(8 * tx + x, 8 * ty + y) == if hi & 3 != 0 || n == 0 {
                None
            } else {
                Some(b.pals@[16 * pal + n])
            }
        }),
{
    reveal(SgbBorder::color_at);
    lemma_entry(tx, ty, x, y);
    let hi = b.map@[entry_at(tx, ty) + 1];
    assert((hi & 0xC0 == 0) == (hi / 64 % 2 == 0 && hi < 128) && hi & 3 == hi % 4 && (hi >> 2) & 7
        == hi / 4 % 8 && (hi >> 2) & 3 == hi / 4 % 4) by (bit_vector);
}

/// A pixel depends on its own map entry and tile: changing another entry or
/// another tile's bytes leaves it.
pub proof fn law_pixel_reads_its_own_tile(a: SgbBorder, b: SgbBorder, tx: int, ty: int, x: int, y: int)
    requires
        a.wf(),
        b.wf(),
        0 <= tx < 32,
        0 <= ty < 28,
        0 <= x < 8,
        0 <= y < 8,
        a.pals@ == b.pals@,
        a.map@[entry_at(tx, ty)] == b.map@[entry_at(tx, ty)],
        a.map@[entry_at(tx, ty) + 1] == b.map@[entry_at(tx, ty) + 1],
        forall|i: int| 0 <= i < 32 ==> #[trigger] a.tiles@[32 * a.map@[entry_at(tx, ty)] + i]
            == b.tiles@[32 * a.map@[entry_at(tx, ty)] + i],
    ensures
        a.color_at(8 * tx + x, 8 * ty + y) == b.color_at(8 * tx + x, 8 * ty + y),
{
    reveal(SgbBorder::color_at);
    lemma_entry(tx, ty, x, y);
    let lo = a.map@[entry_at(tx, ty)];
    let hi = a.map@[entry_at(tx, ty) + 1];
    let r = 2 * if hi >= 128 { 7 - y } else { y };
    assert(a.tiles@[32 * lo + r] == b.tiles@[32 * lo + r]);
    assert(a.tiles@[32 * lo + (r + 1)] == b.tiles@[32 * lo + (r + 1)]);
    assert(a.tiles@[32 * lo + (r + 16)] == b.tiles@[32 * lo + (r + 16)]);
    assert(a.tiles@[32 * lo + (r + 17)] == b.tiles@[32 * lo + (r + 17)]);
}

/// The three bytes of pixel `p` in a picture of RGB bytes.
pub open spec fn rgb_at(picture: Seq<u8>, p: int) -> (u8, u8, u8) {
    (picture[3 * p], picture[3 * p + 1], picture[3 * p + 2])
}

/// Red stands in the low five bits, then green, then blue; each is stretched so
/// that 31 becomes 255.
pub proof fn law_channels_of_a_colour(r: u16, g: u16, b: u16)
    requires
        r < 32,
        g < 32,
        b < 32,
    ensures
        rgb888((r + 32 * g + 1024 * b) as u16) == (
            (r * 255 / 31) as u8,
            (g * 255 / 31) as u8,
            (b * 255 / 31) as u8,
        ),
{
    let c = (r + 32 * g + 1024 * b) as u16;
    assert(c % 32 == r && (c / 32) % 32 == g && (c / 1024) % 32 == b);
}

/// A coloured screen: each block of 8 by 8 pixels has four colours, and a
/// pixel's shade picks among them.
pub proof fn law_coloured_screen(sgb: Sgb, src: Seq<u8>, x: int, y: int)
    requires
        sgb.wf(),
        sgb.colorized,
        sgb.mask == MaskMode::Cancel || sgb.mask == MaskMode::Freeze,
        0 <= x < 160,
        0 <= y < 144,
        src[160 * y + x] < 4,
    ensures
        sgb.frame(src) matches FrameView::Color(v) && v.len() == 69120 && rgb_at(v, 160 * y + x)
            == rgb888(sgb.cells@[20 * (y / 8) + x / 8][src[160 * y + x] as int]),
{
    let p = 160 * y + x;
    assert(p / 160 == y && p % 160 == x);
    assert((3 * p) / 3 == p && (3 * p) % 3 == 0);
    assert((3 * p + 1) / 3 == p && (3 * p + 1) % 3 == 1);
    assert((3 * p + 2) / 3 == p && (3 * p + 2) % 3 == 2);
}

/// A screen without colours is handed on as it is, unless it is masked: black
/// is shade 3, blank is shade 0.
pub proof fn law_plain_screen(sgb: Sgb, src: Seq<u8>, p: int)
    requires
        !sgb.colorized,
        src.len() == 23040,
        0 <= p < 23040,
    ensures
        sgb.frame(src) matches FrameView::Monochrome(v) && v.len() == 23040 && v[p] == match sgb.mask {
            MaskMode::Black => 3u8,
            MaskMode::Color0 => 0,
            _ => src[p],
        },
{
}

/// A masked coloured screen shows black, or colour 0 of each block.
pub proof fn law_masked_coloured_screen(sgb: Sgb, src: Seq<u8>, x: int, y: int)
    requires
        sgb.wf(),
        sgb.colorized,
        0 <= x < 160,
        0 <= y < 144,
    ensures
        sgb.mask == MaskMode::Black ==> (sgb.frame(src) matches FrameView::Color(v) && v.len()
            == 69120 && rgb_at(v, 160 * y + x) == (0u8, 0u8, 0u8)),
        sgb.mask == MaskMode::Color0 ==> (sgb.frame(src) matches FrameView::Color(v) && rgb_at(
            v,
            160 * y + x,
        ) == rgb888(sgb.cells@[20 * (y / 8) + x / 8][0])),
{
    let p = 160 * y + x;
    assert(p / 160 == y && p % 160 == x);
    assert((3 * p) / 3 == p && (3 * p) % 3 == 0);
    assert((3 * p + 1) / 3 == p && (3 * p + 1) % 3 == 1);
    assert((3 * p + 2) / 3 == p && (3 * p + 2) % 3 == 2);
}

/// Pixel (`px`, `py`) of the picture with its border.
pub open spec fn framed(
    sgb: Sgb,
    border: SgbBorder,
    src: Seq<u8>,
    plain: Seq<u16>,
    px: int,
    py: int,
) -> (u8, u8, u8) {
    rgb_at(sgb.composite(border, src, plain), 256 * py + px)
}

/// The border lies over everything. Where it shows nothing the screen does,
/// whose first pixel stands at (48, 40); outside the screen the backdrop does.
pub proof fn law_framed_picture(
    sgb: Sgb,
    border: SgbBorder,
    src: Seq<u8>,
    plain: Seq<u16>,
    px: int,
    py: int,
)
    requires
        sgb.wf(),
        border.wf(),
        0 <= px < 256,
        0 <= py < 224,
    ensures
        sgb.composite(border, src, plain).len() == 172032,
        border.color_at(px, py) matches Some(c) ==> framed(sgb, border, src, plain, px, py)
            == rgb888(c),
        border.color_at(px, py) is None && (px < 48 || px >= 208 || py < 40 || py >= 184)
            ==> framed(sgb, border, src, plain, px, py) == rgb888(sgb.backdrop),
        border.color_at(px, py) is None && 48 <= px < 208 && 40 <= py < 184 ==> ({
            let shade = src[160 * (py - 40) + (px - 48)];
            let cell = sgb.cells@[20 * ((py - 40) / 8) + (px - 48) / 8];
            framed(sgb, border, src, plain, px, py) == match sgb.mask {
                MaskMode::Black => (0u8, 0u8, 0u8),
                MaskMode::Color0 => rgb888(sgb.backdrop),
                _ => rgb888(
                    if sgb.colorized {
                        cell[shade as int % 4]
                    } else {
                        plain[shade as int % 4]
                    },
                ),
            }
        }),
{
    reveal(Sgb::composite_color);
    let p = 256 * py + px;
    assert(p / 256 == py && p % 256 == px);
    assert((3 * p) / 3 == p && (3 * p) % 3 == 0);
    assert((3 * p + 1) / 3 == p && (3 * p + 1) % 3 == 1);
    assert((3 * p + 2) / 3 == p && (3 * p + 2) % 3 == 2);
    let black = rgb888(0);
    assert(black == (0u8, 0u8, 0u8));
}

/// The ring layer: opaque outside the screen, where it shows the border or the
/// backdrop, and all zero inside.
pub proof fn law_ring_layer(sgb: Sgb, border: SgbBorder, px: int, py: int)
    requires
        0 <= px < 256,
        0 <= py < 224,
    ensures
        ({
            let v = sgb.ring(border);
            let at = 4 * (256 * py + px);
            let pixel = (v[at], v[at + 1], v[at + 2]);
            &&& v.len() == 229376
            &&& 48 <= px < 208 && 40 <= py < 184 ==> pixel == (0u8, 0u8, 0u8) && v[at + 3] == 0
            &&& px < 48 || px >= 208 || py < 40 || py >= 184 ==> v[at + 3] == 255 && pixel == rgb888(
                match border.color_at(px, py) {
                    Some(c) => c,
                    None => sgb.backdrop,
                },
            )
        }),
{
    let p = 256 * py + px;
    assert(p / 256 == py && p % 256 == px);
    assert((4 * p) / 4 == p && (4 * p) % 4 == 0);
    assert((4 * p + 1) / 4 == p && (4 * p + 1) % 4 == 1);
    assert((4 * p + 2) / 4 == p && (4 * p + 2) % 4 == 2);
    assert((4 * p + 3) / 4 == p && (4 * p + 3) % 4 == 3);
}

/// The overlay layer holds what the border shows over the screen.
pub proof fn law_overlay_layer(border: SgbBorder, x: int, y: int)
    requires
        0 <= x < 160,
        0 <= y < 144,
    ensures
        ({
            let v = overlay_layer(border);
            let at = 4 * (160 * y + x);
            let pixel = (v[at], v[at + 1], v[at + 2]);
            &&& v.len() == 92160
            &&& match border.color_at(48 + x, 40 + y) {
                Some(c) => v[at + 3] == 255 && pixel == rgb888(c),
                None => v[at + 3] == 0 && pixel == (0u8, 0u8, 0u8),
            }
        }),
{
    let p = 160 * y + x;
    assert(p / 160 == y && p % 160 == x);
    assert((4 * p) / 4 == p && (4 * p) % 4 == 0);
    assert((4 * p + 1) / 4 == p && (4 * p + 1) % 4 == 1);
    assert((4 * p + 2) / 4 == p && (4 * p + 2) % 4 == 2);
    assert((4 * p + 3) / 4 == p && (4 * p + 3) % 4 == 3);
}

/// There is an overlay where the border shows anything over the screen, whose
/// first pixel stands at (48, 40).
pub proof fn law_overlay_where_the_border_shows(border: SgbBorder, x: int, y: int)
    requires
        0 <= x < 160,
        0 <= y < 144,
    ensures
        border.color_at(48 + x, 40 + y) is Some ==> covers_window(border),
        covers_window(border) ==> exists|p: int|
            0 <= p < 23040 && #[trigger] border.color_at(48 + p % 160, 40 + p / 160) is Some,
{
    let p = 160 * y + x;
    assert(p / 160 == y && p % 160 == x);
    if border.color_at(48 + x, 40 + y) is Some {
        assert(covered_pixel(border, p));
    }
    if covers_window(border) {
        let q = choose|q: int| 0 <= q < 23040 && covered_pixel(border, q);
        assert(border.color_at(48 + q % 160, 40 + q / 160) is Some);
    }
}

} // verus!
