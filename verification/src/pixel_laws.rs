//! What a pixel shows: palettes, objects and the priority between objects and
//! background, in terms of the palettes' bytes and of the priority bits.

use vstd::prelude::*;

use crate::color::{bgp_shade, cgb_rgb, obp_shade};
use crate::history_laws::{
    columns_in_order, dots_in_order, law_background_is_on_by_column, law_history_by_dot,
    value_by_column, value_by_dot,
};
use crate::mmio::{AgbCurve, Mmio};
use crate::objects::{Sprite, SpriteAttributes};
use crate::state::{ColorCorrection, PpuView};
use crate::tile_laws::{banked, bit_of};

verus! {

/// A palette register holds four shades, two bits each, colour 0 lowest.
pub proof fn law_palette_registers_hold_two_bits_a_colour(palette: u8, idx: u8)
    requires
        idx < 4,
    ensures
        bgp_shade(palette, idx) == (palette >> (2 * idx) as u8) & 3,
        idx > 0 ==> obp_shade(palette, idx) == (palette >> (2 * idx) as u8) & 3,
{
    assert(palette % 4 == (palette >> 0u8) & 3) by (bit_vector);
    assert((palette / 4) % 4 == (palette >> 2u8) & 3) by (bit_vector);
    assert((palette / 16) % 4 == (palette >> 4u8) & 3) by (bit_vector);
    assert((palette / 64) % 4 == (palette >> 6u8) & 3) by (bit_vector);
}

/// A palette memory colour is fifteen bits, five each of red, green and blue
/// from the low end. Linearly each is stretched to 255; a CGB panel mixes them;
/// an AGB panel shows its curve's entry.
pub proof fn law_palette_memory_colours(low: u8, high: u8, agb: Option<AgbCurve>)
    ensures
        ({
            let word = 256 * high + low;
            let r = word % 32;
            let g = (word / 32) % 32;
            let b = (word / 1024) % 32;
            let linear = cgb_rgb(ColorCorrection::Linear, low, high, agb);
            let lcd = cgb_rgb(ColorCorrection::Lcd, low, high, None);
            &&& linear.0 == r * 255 / 31 && linear.1 == g * 255 / 31 && linear.2 == b * 255 / 31
            &&& lcd.0 == (13 * r + 2 * g + b) / 2
            &&& lcd.1 == 2 * (3 * g + b)
            &&& lcd.2 == (3 * r + 2 * g + 11 * b) / 2
            &&& agb matches Some(curve) ==> ({
                let shown = cgb_rgb(ColorCorrection::Lcd, low, high, agb);
                let entry = curve.table@[word % 0x8000];
                shown.0 == entry[0] && shown.1 == entry[1] && shown.2 == entry[2]
            })
        }),
{
}

/// The bits of an object's attribute byte.
pub proof fn law_attribute_byte(byte: u8)
    ensures
        ({
            let a = SpriteAttributes::from_byte(byte);
            &&& a.priority == (byte >= 0x80)
            &&& a.y_flip == (byte & 0x40 != 0)
            &&& a.x_flip == (byte & 0x20 != 0)
            &&& a.palette == (byte & 0x10 != 0)
            &&& a.raw == byte
        }),
{
    assert((byte & 0x80 != 0) == (byte >= 0x80)) by (bit_vector);
}

/// The object lies over the pixel: its X is 8 right of its first column, its Y
/// 16 below its first row.
pub open spec fn lies_over(o: Sprite, tall: bool, sx: u8, sy: u8) -> bool {
    o.x <= sx + 8 < o.x + 8 && o.y <= sy + 16 < o.y + if tall { 16int } else { 8 }
}

/// The colour index of an object at a pixel that it lies over, read from video
/// memory: a tall object is two tiles, the even one first, and flips as a
/// whole.
pub open spec fn object_index(m: Mmio, o: Sprite, tall: bool, sx: u8, sy: u8) -> int {
    let at = object_at(o, tall, sy);
    let second = m.cgb_features && o.attributes.raw & 0x08 != 0;
    let column = sx + 8 - o.x;
    let bit = if o.attributes.x_flip { column } else { 7 - column };
    bit_of(banked(m, second, at), bit) + 2 * bit_of(banked(m, second, at + 1), bit)
}

proof fn lemma_planes(low: u8, high: u8, col: int, flip: bool)
    requires
        0 <= col < 8,
    ensures
        crate::color_mix::plane_pixel(low, high, col, flip) == bit_of(
            low,
            if flip { col } else { 7 - col },
        ) + 2 * bit_of(high, if flip { col } else { 7 - col }),
{
    let bit = (if flip { col } else { 7 - col }) as u8;
    assert((((high >> bit) & 1) << 1) | ((low >> bit) & 1) == ((low >> bit) & 1) + 2 * ((high >> bit)
        & 1)) by (bit_vector);
}

proof fn lemma_tile_pair(tile: u8)
    ensures
        tile & 0xFE == tile - tile % 2,
        tile | 0x01 == tile - tile % 2 + 1,
{
    assert(tile & 0xFE == tile - tile % 2 && tile | 0x01 == (tile & 0xFE) + 1) by (bit_vector);
}

/// The row of an object's tile or tiles that a line shows.
pub open spec fn object_row(o: Sprite, tall: bool, sy: u8) -> int {
    let line = sy + 16 - o.y;
    if !o.attributes.y_flip {
        line
    } else if tall {
        15 - line
    } else {
        7 - line
    }
}

/// The offset in video memory of the row's first byte.
pub open spec fn object_at(o: Sprite, tall: bool, sy: u8) -> int {
    16 * (if tall { o.tile_index - o.tile_index % 2 } else { o.tile_index as int }) + 2
        * object_row(o, tall, sy)
}

proof fn lemma_cpu_read(m: Mmio, at: int)
    requires
        0 <= at < 8192,
        m.vbk & 1 == 0,
    ensures
        m.spec_read((0x8000 + at) as u16) == m.vram0[at],
{
    reveal(Mmio::spec_read);
}

proof fn lemma_object_address(o: Sprite, tall: bool, sy: u8)
    requires
        o.y <= sy + 16 < o.y + if tall { 16int } else { 8 },
    ensures
        ({
            let row = object_row(o, tall, sy);
            let tile = if !tall {
                o.tile_index
            } else if row < 8 {
                o.tile_index & 0xFE
            } else {
                o.tile_index | 0x01
            };
            &&& 16 * tile + 2 * (row % 8) == object_at(o, tall, sy)
            &&& 0 <= object_at(o, tall, sy) < 4096
            &&& object_at(o, tall, sy) + 1 < 4096
        }),
{
    lemma_tile_pair(o.tile_index);
}

/// What an object shows on a pixel: nothing where it does not lie or its colour
/// index is 0, and else that index.
pub proof fn law_object_pixel_from_memory(s: PpuView, m: Mmio, i: int, sx: u8, sy: u8)
    requires
        0 <= i < s.line.sprites.len(),
        m.cgb_features || m.vbk & 1 == 0,
    ensures
        ({
            let o = s.line.sprites[i];
            let tall = s.lcdc.reg & 0x04 != 0;
            let idx = object_index(m, o, tall, sx, sy);
            s.visible_pixel(m, i, sx, sy) == if lies_over(o, tall, sx, sy) && idx != 0 {
                Some(idx as u8)
            } else {
                None
            }
        }),
{
    let o = s.line.sprites[i];
    let tall = s.lcdc.reg & 0x04 != 0;
    if lies_over(o, tall, sx, sy) {
        let at = object_at(o, tall, sy);
        let second = m.cgb_features && o.attributes.raw & 0x08 != 0;
        let low = banked(m, second, at);
        let high = banked(m, second, at + 1);
        lemma_object_address(o, tall, sy);
        lemma_planes(low, high, sx + 8 - o.x, o.attributes.x_flip);
        if !m.cgb_features {
            lemma_cpu_read(m, at);
            lemma_cpu_read(m, at + 1);
        }
        lemma_sprite_pixel(s, m, o, sx, sy);
        lemma_index_small(m, o, tall, sx, sy);
    }
}

proof fn lemma_sprite_pixel(s: PpuView, m: Mmio, o: Sprite, sx: u8, sy: u8)
    requires
        lies_over(o, s.lcdc.reg & 0x04 != 0, sx, sy),
        m.cgb_features || m.vbk & 1 == 0,
    ensures
        ({
            let tall = s.lcdc.reg & 0x04 != 0;
            let at = object_at(o, tall, sy);
            let second = m.cgb_features && o.attributes.raw & 0x08 != 0;
            s.sprite_pixel(m, o, sx + 8 - o.x, sy + 16 - o.y) == Some(
                crate::color_mix::plane_pixel(
                    banked(m, second, at),
                    banked(m, second, at + 1),
                    sx + 8 - o.x,
                    o.attributes.x_flip,
                ),
            )
        }),
{
    let tall = s.lcdc.reg & 0x04 != 0;
    let at = object_at(o, tall, sy);
    lemma_object_address(o, tall, sy);
    if !m.cgb_features {
        lemma_cpu_read(m, at);
        lemma_cpu_read(m, at + 1);
    }
    assert((0x8000 + at) as u16 as int % 8192 == at);
    assert((0x8000 + at + 1) as u16 as int % 8192 == at + 1);
}

/// The background's colour in CGB mode: palette bits 0 to 2 of the map
/// attribute, two bytes a colour.
pub proof fn law_background_colour_from_palette_memory(s: PpuView, m: Mmio, idx: u8, attrs: u8, sx: u8)
    requires
        m.cgb_features,
        idx < 4,
    ensures
        ({
            let at = 8 * (attrs % 8) + 2 * idx;
            s.cgb_bg_color(m, attrs & 0x07, idx, sx) == cgb_rgb(
                s.cgb_color_conversion,
                m.bg_palette[at],
                m.bg_palette[at + 1],
                m.agb_curve,
            )
        }),
{
    assert(attrs & 0x07 == attrs % 8) by (bit_vector);
}

/// In CGB mode, with background priority switched on, a background colour other
/// than 0 with bit 7 set in its map attribute shows whatever objects there are.
pub proof fn law_priority_background_hides_objects(
    s: PpuView,
    m: Mmio,
    idx: u8,
    attrs: u8,
    sx: u8,
    sy: u8,
)
    requires
        m.cgb_features,
        1 <= idx <= 3,
        attrs >= 0x80,
    ensures
        ({
            let at = 8 * (attrs % 8) + 2 * idx;
            s.mix_color(m, idx, attrs, sx, sy, true) == cgb_rgb(
                s.cgb_color_conversion,
                m.bg_palette[at],
                m.bg_palette[at + 1],
                m.agb_curve,
            )
        }),
{
    assert(attrs >= 0x80 ==> attrs & 0x80 != 0) by (bit_vector);
    law_background_colour_from_palette_memory(s, m, idx, attrs, sx);
}

proof fn lemma_foremost_cgb(s: PpuView, m: Mmio, n: int, k: int, sx: u8, sy: u8)
    requires
        0 <= k < s.line.sprites.len(),
        0 <= n <= s.line.sprites.len(),
        m.cgb_features,
        s.visible_pixel(m, k, sx, sy) is Some,
        forall|j: int|
            0 <= j < s.line.sprites.len() && j != k && (#[trigger] s.visible_pixel(m, j, sx, sy))
                is Some ==> s.line.sprites[k].oam_index < s.line.sprites[j].oam_index,
    ensures
        k < n ==> s.foremost(m, n, sx, sy) == Some(k),
        s.foremost(m, n, sx, sy) matches Some(j) ==> 0 <= j < n && s.visible_pixel(m, j, sx, sy)
            is Some,
    decreases n,
{
    if n > 0 {
        lemma_foremost_cgb(s, m, n - 1, k, sx, sy);
    }
}

/// In CGB mode the visible object that comes first in OAM shows, in the colour
/// that its attributes' palette gives, where it is in front of the background:
/// over colour 0, without background priority, or with both priority bits
/// clear. Otherwise the background shows.
pub proof fn law_first_object_shows_in_cgb_mode(
    s: PpuView,
    m: Mmio,
    idx: u8,
    attrs: u8,
    sx: u8,
    sy: u8,
    master: bool,
    k: int,
)
    requires
        m.cgb_features,
        idx < 4,
        s.lcdc.reg & 0x02 != 0,
        0 <= k < s.line.sprites.len(),
        s.visible_pixel(m, k, sx, sy) is Some,
        forall|j: int|
            0 <= j < s.line.sprites.len() && j != k && (#[trigger] s.visible_pixel(m, j, sx, sy))
                is Some ==> s.line.sprites[k].oam_index < s.line.sprites[j].oam_index,
    ensures
        ({
            let o = s.line.sprites[k];
            let in_front = idx == 0 || !master || (attrs < 0x80 && !o.attributes.priority);
            let obj = 8 * (o.attributes.raw % 8) + 2 * object_index(
                m,
                o,
                s.lcdc.reg & 0x04 != 0,
                sx,
                sy,
            );
            let bg = 8 * (attrs % 8) + 2 * idx;
            s.mix_color(m, idx, attrs, sx, sy, master) == if in_front {
                cgb_rgb(
                    s.cgb_color_conversion,
                    m.obj_palette[obj],
                    m.obj_palette[obj + 1],
                    m.agb_curve,
                )
            } else {
                cgb_rgb(s.cgb_color_conversion, m.bg_palette[bg], m.bg_palette[bg + 1], m.agb_curve)
            }
        }),
{
    let o = s.line.sprites[k];
    lemma_foremost_cgb(s, m, s.line.sprites.len() as int, k, sx, sy);
    assert(s.foremost(m, s.line.sprites.len() as int, sx, sy) == Some(k));
    lemma_object_colour(s, m, k, sx, sy);
    law_background_colour_from_palette_memory(s, m, idx, attrs, sx);
    assert((attrs & 0x80 == 0) == (attrs < 0x80)) by (bit_vector);
}

proof fn lemma_object_colour(s: PpuView, m: Mmio, k: int, sx: u8, sy: u8)
    requires
        m.cgb_features,
        0 <= k < s.line.sprites.len(),
        s.visible_pixel(m, k, sx, sy) is Some,
    ensures
        ({
            let o = s.line.sprites[k];
            let obj = 8 * (o.attributes.raw % 8) + 2 * object_index(
                m,
                o,
                s.lcdc.reg & 0x04 != 0,
                sx,
                sy,
            );
            s.sprite_rgb(m, k, sx, sy) == cgb_rgb(
                s.cgb_color_conversion,
                m.obj_palette[obj],
                m.obj_palette[obj + 1],
                m.agb_curve,
            )
        }),
{
    let o = s.line.sprites[k];
    let raw = o.attributes.raw;
    let tall = s.lcdc.reg & 0x04 != 0;
    law_object_pixel_from_memory(s, m, k, sx, sy);
    lemma_index_small(m, o, tall, sx, sy);
    assert(raw & 0x07 == raw % 8) by (bit_vector);
    assert(s.visible_pixel(m, k, sx, sy) == Some(object_index(m, o, tall, sx, sy) as u8));
}

proof fn lemma_index_small(m: Mmio, o: Sprite, tall: bool, sx: u8, sy: u8)
    ensures
        0 <= object_index(m, o, tall, sx, sy) <= 3,
{
    let at = object_at(o, tall, sy);
    let second = m.cgb_features && o.attributes.raw & 0x08 != 0;
    let column = sx + 8 - o.x;
    let bit = (if o.attributes.x_flip { column } else { 7 - column }) as u8;
    let a = banked(m, second, at);
    let b = banked(m, second, at + 1);
    assert((a >> bit) & 1 <= 1 && (b >> bit) & 1 <= 1) by (bit_vector);
}

/// In CGB mode the background shows where no object does, and with objects
/// switched off.
pub proof fn law_background_shows_alone_in_cgb_mode(
    s: PpuView,
    m: Mmio,
    idx: u8,
    attrs: u8,
    sx: u8,
    sy: u8,
    master: bool,
)
    requires
        m.cgb_features,
        idx < 4,
        s.lcdc.reg & 0x02 == 0 || forall|j: int|
            0 <= j < s.line.sprites.len() ==> (#[trigger] s.visible_pixel(m, j, sx, sy)) is None,
    ensures
        ({
            let at = 8 * (attrs % 8) + 2 * idx;
            s.mix_color(m, idx, attrs, sx, sy, master) == cgb_rgb(
                s.cgb_color_conversion,
                m.bg_palette[at],
                m.bg_palette[at + 1],
                m.agb_curve,
            )
        }),
{
    law_background_colour_from_palette_memory(s, m, idx, attrs, sx);
    if s.lcdc.reg & 0x02 != 0 {
        lemma_foremost_none(s, m, s.line.sprites.len() as int, sx, sy);
    }
}

proof fn lemma_foremost_none(s: PpuView, m: Mmio, n: int, sx: u8, sy: u8)
    requires
        0 <= n <= s.line.sprites.len(),
        forall|j: int|
            0 <= j < s.line.sprites.len() ==> (#[trigger] s.visible_pixel(m, j, sx, sy)) is None,
    ensures
        s.foremost(m, n, sx, sy) is None,
    decreases n,
{
    if n > 0 {
        lemma_foremost_none(s, m, n - 1, sx, sy);
    }
}

/// On a line on which objects were neither switched nor resized, an object wins
/// a pixel over background colour `idx` where it is visible there and either its
/// priority bit is clear or the colour is 0.
pub open spec fn wins(s: PpuView, m: Mmio, i: int, sx: u8, sy: u8, idx: u8) -> bool {
    s.visible_pixel(m, i, sx, sy) is Some && (!s.line.sprites[i].attributes.priority || idx == 0)
}

/// The object palette that an object's attributes name, as it is on this dot.
pub open spec fn object_palette(s: PpuView, o: Sprite) -> u8 {
    if o.attributes.palette {
        value_by_dot(s.hist.obp1_dot, s.ticks as int, s.plot.obp1_delayed)
    } else {
        value_by_dot(s.hist.obp0_dot, s.ticks as int, s.plot.obp0_delayed)
    }
}

/// None of the first `n` objects wins the pixel.
pub open spec fn none_wins(s: PpuView, m: Mmio, n: int, sx: u8, sy: u8, idx: u8) -> bool {
    forall|j: int| 0 <= j < n ==> !#[trigger] wins(s, m, j, sx, sy, idx)
}

proof fn lemma_winning(s: PpuView, m: Mmio, i: int, sx: u8, sy: u8, idx: u8, quirk: bool)
    requires
        0 <= i < s.line.sprites.len(),
        s.hist.objen.len() <= 1,
        s.hist.objsize.len() <= 1,
    ensures
        s.winning_pixel(m, i, sx, sy, idx, quirk) == if wins(s, m, i, sx, sy, idx) {
            s.visible_pixel(m, i, sx, sy)
        } else {
            None
        },
{
}

proof fn lemma_first_winner(
    s: PpuView,
    m: Mmio,
    i: int,
    k: int,
    sx: u8,
    sy: u8,
    idx: u8,
    quirk: bool,
)
    requires
        0 <= i <= k <= s.line.sprites.len(),
        s.hist.objen.len() <= 1,
        s.hist.objsize.len() <= 1,
        forall|j: int| i <= j < k ==> !#[trigger] wins(s, m, j, sx, sy, idx),
        k < s.line.sprites.len() ==> wins(s, m, k, sx, sy, idx),
    ensures
        s.first_winner_from(m, i, sx, sy, idx, quirk) == if k < s.line.sprites.len() {
            Some((s.line.sprites[k], s.visible_pixel(m, k, sx, sy)->0))
        } else {
            None
        },
    decreases k - i,
{
    if i < s.line.sprites.len() {
        lemma_winning(s, m, i, sx, sy, idx, quirk);
        if i < k {
            assert(!wins(s, m, i, sx, sy, idx));
            lemma_first_winner(s, m, i + 1, k, sx, sy, idx, quirk);
        }
    }
}

/// A DMG pixel shows the first object in drawing order that wins it, in the
/// shade of the object palette that its attributes name.
pub proof fn law_first_object_shows_on_dmg(
    s: PpuView,
    m: Mmio,
    idx: u8,
    sx: u8,
    sy: u8,
    bg_on: bool,
    k: int,
)
    requires
        !m.cgb_hardware,
        !m.cgb_features,
        m.vbk & 1 == 0,
        s.lcdc.reg & 0x02 != 0,
        s.hist.objen.len() <= 1,
        s.hist.objsize.len() <= 1,
        dots_in_order(s.hist.obp0_dot),
        dots_in_order(s.hist.obp1_dot),
        0 <= k < s.line.sprites.len(),
        wins(s, m, k, sx, sy, if bg_on { idx } else { 0 }),
        none_wins(s, m, k, sx, sy, if bg_on { idx } else { 0 }),
    ensures
        ({
            let o = s.line.sprites[k];
            let p = object_index(m, o, s.lcdc.reg & 0x04 != 0, sx, sy);
            let palette = object_palette(s, o);
            s.mix_mono(m, idx, sx, sy, bg_on) == (palette >> (2 * p) as u8) & 3
        }),
{
    let bg = if bg_on { idx } else { 0 };
    let o = s.line.sprites[k];
    lemma_first_winner(s, m, 0, k, sx, sy, bg, true);
    law_object_pixel_from_memory(s, m, k, sx, sy);
    lemma_index_small(m, o, s.lcdc.reg & 0x04 != 0, sx, sy);
    let p = object_index(m, o, s.lcdc.reg & 0x04 != 0, sx, sy) as u8;
    let palette = object_palette(s, o);
    law_history_by_dot(s.hist.obp0_dot, s.ticks, s.plot.obp0_delayed);
    law_history_by_dot(s.hist.obp1_dot, s.ticks, s.plot.obp1_delayed);
    law_palette_registers_hold_two_bits_a_colour(palette, p);
}

/// A DMG pixel that no object wins shows the background's shade, and colour 0's
/// where the background is off.
pub proof fn law_background_shows_alone_on_dmg(
    s: PpuView,
    m: Mmio,
    idx: u8,
    sx: u8,
    sy: u8,
    bg_on: bool,
)
    requires
        !m.cgb_hardware,
        idx < 4,
        s.hist.objen.len() <= 1,
        s.hist.objsize.len() <= 1,
        s.lcdc.reg & 0x02 == 0 || none_wins(
            s,
            m,
            s.line.sprites.len() as int,
            sx,
            sy,
            if bg_on { idx } else { 0 },
        ),
    ensures
        s.mix_mono(m, idx, sx, sy, bg_on) == (s.plot.bgp_delayed >> (if bg_on {
            2 * idx
        } else {
            0
        }) as u8) & 3,
{
    let bg = if bg_on { idx } else { 0 };
    if s.lcdc.reg & 0x02 != 0 {
        lemma_first_winner(s, m, 0, s.line.sprites.len() as int, sx, sy, bg, true);
    }
    law_palette_registers_hold_two_bits_a_colour(s.plot.bgp_delayed, bg);
}

/// A DMG cartridge on CGB hardware shows the same pixel, coloured by the boot
/// palettes: the background's from the first background palette.
pub proof fn law_compat_background_is_coloured(
    s: PpuView,
    m: Mmio,
    idx: u8,
    sx: u8,
    sy: u8,
    bg_on: bool,
)
    requires
        idx < 4,
        dots_in_order(s.hist.bgp_dot),
        s.hist.objen.len() <= 1,
        s.lcdc.reg & 0x02 == 0,
    ensures
        ({
            let bgp = value_by_dot(s.hist.bgp_dot, s.ticks as int, s.plot.bgp_delayed);
            let shade = (bgp >> (if bg_on { 2 * idx } else { 0 }) as u8) & 3;
            s.mix_compat(m, idx, sx, sy, bg_on) == cgb_rgb(
                s.cgb_color_conversion,
                m.bg_palette[2 * shade],
                m.bg_palette[2 * shade + 1],
                m.agb_curve,
            )
        }),
{
    let bg = if bg_on { idx } else { 0 };
    law_history_by_dot(s.hist.bgp_dot, s.ticks, s.plot.bgp_delayed);
    law_palette_registers_hold_two_bits_a_colour(
        value_by_dot(s.hist.bgp_dot, s.ticks as int, s.plot.bgp_delayed),
        bg,
    );
}

/// The same for objects, from the object palette that the attributes name.
pub proof fn law_compat_object_is_coloured(
    s: PpuView,
    m: Mmio,
    idx: u8,
    sx: u8,
    sy: u8,
    bg_on: bool,
    k: int,
)
    requires
        !m.cgb_features,
        m.vbk & 1 == 0,
        s.lcdc.reg & 0x02 != 0,
        s.hist.objen.len() <= 1,
        s.hist.objsize.len() <= 1,
        dots_in_order(s.hist.obp0_dot),
        dots_in_order(s.hist.obp1_dot),
        0 <= k < s.line.sprites.len(),
        wins(s, m, k, sx, sy, if bg_on { idx } else { 0 }),
        none_wins(s, m, k, sx, sy, if bg_on { idx } else { 0 }),
    ensures
        ({
            let o = s.line.sprites[k];
            let p = object_index(m, o, s.lcdc.reg & 0x04 != 0, sx, sy);
            let palette = object_palette(s, o);
            let shade = (palette >> (2 * p) as u8) & 3;
            let at = 2 * shade + if o.attributes.palette { 8int } else { 0 };
            s.mix_compat(m, idx, sx, sy, bg_on) == cgb_rgb(
                s.cgb_color_conversion,
                m.obj_palette[at],
                m.obj_palette[at + 1],
                m.agb_curve,
            )
        }),
{
    let bg = if bg_on { idx } else { 0 };
    let o = s.line.sprites[k];
    lemma_first_winner(s, m, 0, k, sx, sy, bg, !m.cgb_hardware || m.cgb_features);
    law_object_pixel_from_memory(s, m, k, sx, sy);
    lemma_index_small(m, o, s.lcdc.reg & 0x04 != 0, sx, sy);
    let p = object_index(m, o, s.lcdc.reg & 0x04 != 0, sx, sy) as u8;
    let palette = object_palette(s, o);
    law_history_by_dot(s.hist.obp0_dot, s.ticks, s.plot.obp0_delayed);
    law_history_by_dot(s.hist.obp1_dot, s.ticks, s.plot.obp1_delayed);
    law_palette_registers_hold_two_bits_a_colour(palette, p);
}

/// A drawn pixel takes the front of the queue and stands in the picture at its
/// column of line LY: the DMG's as a shade.
pub proof fn law_dmg_pixel_stands_in_the_picture(s: PpuView, m: Mmio)
    requires
        s.wf(),
        s.x < 160,
        m.ly < 144,
        !m.cgb_hardware,
        !m.cgb_features,
        s.fetcher.fifo.len() > 0,
        !s.win.insert_bg_pixel,
        columns_in_order(s.hist.bgen),
    ensures
        ({
            let (t, drawn) = s.draw_fifo_pixel(m);
            let on = value_by_column(s.hist.bgen, s.x as int, s.lcdc.reg & 0x01 != 0);
            &&& drawn
            &&& t.x == s.x + 1
            &&& t.frames.fb_a[160 * m.ly + s.x] == s.mix_mono(
                m,
                s.fetcher.fifo[0].color,
                s.x,
                m.ly,
                on,
            )
            &&& t.fetcher.fifo == s.fetcher.fifo.skip(1)
        }),
{
    law_background_is_on_by_column(s, s.x);
    reveal(PpuView::draw_fifo_pixel);
    reveal(PpuView::plot_mono);
    let u = s.take_pixel().0;
    assert(u.mix_mono(m, s.fetcher.fifo[0].color, s.x, m.ly, u.bgen_at(s.x)) == s.mix_mono(
        m,
        s.fetcher.fifo[0].color,
        s.x,
        m.ly,
        s.bgen_at(s.x),
    )) by {
        lemma_mix_mono_same(u, s, m, s.fetcher.fifo[0].color, s.x, m.ly, s.bgen_at(s.x));
    }
}

proof fn lemma_mix_mono_same(a: PpuView, b: PpuView, m: Mmio, idx: u8, sx: u8, sy: u8, on: bool)
    requires
        a == (PpuView { fetcher: a.fetcher, win: a.win, ..b }),
    ensures
        a.mix_mono(m, idx, sx, sy, on) == b.mix_mono(m, idx, sx, sy, on),
{
    lemma_winner_same(a, b, m, 0, sx, sy, if on { idx } else { 0 });
}

proof fn lemma_winner_same(a: PpuView, b: PpuView, m: Mmio, i: int, sx: u8, sy: u8, idx: u8)
    requires
        a == (PpuView { fetcher: a.fetcher, win: a.win, ..b }),
    ensures
        a.first_winner_from(m, i, sx, sy, idx, true) == b.first_winner_from(
            m,
            i,
            sx,
            sy,
            idx,
            true,
        ),
    decreases b.line.sprites.len() - i,
{
    if 0 <= i < b.line.sprites.len() {
        assert(a.winning_pixel(m, i, sx, sy, idx, true) == b.winning_pixel(
            m,
            i,
            sx,
            sy,
            idx,
            true,
        ));
        lemma_winner_same(a, b, m, i + 1, sx, sy, idx);
    }
}

/// In CGB mode the pixel stands there as three bytes, red, green and blue.
pub proof fn law_cgb_pixel_stands_in_the_picture(s: PpuView, m: Mmio)
    requires
        s.wf(),
        s.x < 160,
        m.ly < 144,
        m.cgb_features,
        s.fetcher.fifo.len() > 0,
        !s.win.insert_bg_pixel,
        columns_in_order(s.hist.bgen),
    ensures
        ({
            let (t, drawn) = s.draw_fifo_pixel(m);
            let p = s.fetcher.fifo[0];
            let at = 3 * (160 * m.ly + s.x);
            let on = value_by_column(s.hist.bgen, s.x as int, s.lcdc.reg & 0x01 != 0);
            let rgb = s.mix_color(m, p.color, p.attrs, s.x, m.ly, on);
            &&& drawn
            &&& t.x == s.x + 1
            &&& t.frames.color_fb_a[at] == rgb.0
            &&& t.frames.color_fb_a[at + 1] == rgb.1
            &&& t.frames.color_fb_a[at + 2] == rgb.2
            &&& t.fetcher.fifo == s.fetcher.fifo.skip(1)
        }),
{
    law_background_is_on_by_column(s, s.x);
    reveal(PpuView::draw_fifo_pixel);
    reveal(PpuView::plot_color);
    let u = s.take_pixel().0;
    let p = s.fetcher.fifo[0];
    lemma_foremost_same(u, s, m, s.line.sprites.len() as int, s.x, m.ly);
    assert(u.mix_color(m, p.color, p.attrs, s.x, m.ly, u.bgen_at(s.x)) == s.mix_color(
        m,
        p.color,
        p.attrs,
        s.x,
        m.ly,
        s.bgen_at(s.x),
    ));
}

proof fn lemma_foremost_same(a: PpuView, b: PpuView, m: Mmio, n: int, sx: u8, sy: u8)
    requires
        a == (PpuView { fetcher: a.fetcher, win: a.win, ..b }),
    ensures
        a.foremost(m, n, sx, sy) == b.foremost(m, n, sx, sy),
    decreases n,
{
    if n > 0 {
        lemma_foremost_same(a, b, m, n - 1, sx, sy);
        assert(a.visible_pixel(m, n - 1, sx, sy) == b.visible_pixel(m, n - 1, sx, sy));
    }
}

} // verus!
