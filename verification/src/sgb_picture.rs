//! Super Game Boy pictures: the colourised screen and the border around it.

use vstd::prelude::*;

use crate::color::{rgb555_to_rgb888, rgb888};
use crate::fetcher::row_bit;
use crate::frames::{filled, filled_vec};
use crate::regs::{
    FRAMEBUFFER_SIZE, SGB_FRAME_HEIGHT, SGB_FRAME_SIZE, SGB_FRAME_WIDTH, SGB_WINDOW_X_END,
    SGB_WINDOW_X_START, SGB_WINDOW_Y_END, SGB_WINDOW_Y_START,
};
use crate::sgb::{MaskMode, Sgb, SgbBorder};

verus! {

/// A finished picture: shades 0 to 3, or RGB bytes.
#[derive(Clone, Debug)]
pub enum RenderedFrame {
    Monochrome(Vec<u8>),
    Color(Vec<u8>),
}

/// What a `RenderedFrame` holds.
pub enum FrameView {
    Monochrome(Seq<u8>),
    Color(Seq<u8>),
}

impl View for RenderedFrame {
    type V = FrameView;

    open spec fn view(&self) -> FrameView {
        match self {
            RenderedFrame::Monochrome(v) => FrameView::Monochrome(v@),
            RenderedFrame::Color(v) => FrameView::Color(v@),
        }
    }
}

/// The border as two RGBA layers: `ring` lies around the screen, `overlay` on
/// top of it.
#[derive(Clone, Debug)]
pub struct SgbBorderLayers {
    pub ring: Vec<u8>,
    pub overlay: Option<Vec<u8>>,
}

/// Channel `c` of a colour.
pub open spec fn channel(rgb: (u8, u8, u8), c: int) -> u8 {
    if c == 0 {
        rgb.0
    } else if c == 1 {
        rgb.1
    } else {
        rgb.2
    }
}

/// One bit of a tile row.
pub fn row_bit_exec(byte: u8, i: u8, x_flip: bool) -> (r: u8)
    requires
        i < 8,
    ensures
        r == row_bit(byte, i as int, x_flip),
        r <= 1,
{
    let bit: u8 = if x_flip { i } else { 7 - i };
    let r: u8 = (byte >> bit) & 1;
    assert((byte >> bit) & 1 <= 1) by (bit_vector);
    r
}

impl SgbBorder {
    /// The colour number of border pixel (`px`, `py`), of sixteen; 0 is
    /// transparent.
    pub open spec fn color_number(&self, px: int, py: int) -> int {
        let e = ((py / 8) * 32 + px / 8) * 2;
        let hi = self.map@[e + 1];
        let h_flip = (hi / 64) % 2 == 1;
        let row = if hi >= 128 { 7 - py % 8 } else { py % 8 };
        let base = self.map@[e] * 32 + row * 2;
        row_bit(self.tiles@[base], px % 8, h_flip) + 2 * row_bit(
            self.tiles@[base + 1],
            px % 8,
            h_flip,
        ) + 4 * row_bit(self.tiles@[base + 16], px % 8, h_flip) + 8 * row_bit(
            self.tiles@[base + 17],
            px % 8,
            h_flip,
        )
    }

    /// The colour of border pixel (`px`, `py`); none where the map entry names
    /// a tile beyond the 256 or the pixel is transparent.
    #[verifier::opaque]
    pub open spec fn color_at(&self, px: int, py: int) -> Option<u16> {
        let e = ((py / 8) * 32 + px / 8) * 2;
        let hi = self.map@[e + 1];
        let pal = (hi / 4) as int % self.pal_count();
        let color = self.color_number(px, py);
        if hi % 4 != 0 || color == 0 {
            None
        } else {
            Some(self.pals@[pal * 16 + color])
        }
    }

    pub fn get_color_at(&self, px: usize, py: usize) -> (r: Option<u16>)
        requires
            self.wf(),
            px < 256,
            py < 224,
        ensures
            r == self.color_at(px as int, py as int),
    {
        reveal(SgbBorder::color_at);
        let e: usize = ((py / 8) * 32 + px / 8) * 2;
        let hi: u8 = self.map[e + 1];
        if hi % 4 != 0 {
            return None;
        }
        let pal_count: usize = if self.pals.len() >= 128 { 8 } else { 4 };
        let pal: usize = (hi / 4) as usize % pal_count;
        let h_flip = (hi / 64) % 2 == 1;
        let row: usize = if hi >= 128 { 7 - py % 8 } else { py % 8 };
        let base: usize = self.map[e] as usize * 32 + row * 2;
        let col: u8 = (px % 8) as u8;
        let color: usize = row_bit_exec(self.tiles[base], col, h_flip) as usize + 2 * row_bit_exec(
            self.tiles[base + 1],
            col,
            h_flip,
        ) as usize + 4 * row_bit_exec(self.tiles[base + 16], col, h_flip) as usize + 8
            * row_bit_exec(self.tiles[base + 17], col, h_flip) as usize;
        if color == 0 {
            return None;
        }
        Some(self.pals[pal * 16 + color])
    }
}

/// The Game Boy screen's place in the picture.
pub open spec fn in_window(px: int, py: int) -> bool {
    SGB_WINDOW_X_START <= px < SGB_WINDOW_X_END && SGB_WINDOW_Y_START <= py < SGB_WINDOW_Y_END
}

impl Sgb {
    /// The 15-bit colour of screen pixel (`x`, `y`) of shade picture `src`.
    pub open spec fn screen_color(
        &self,
        src: Seq<u8>,
        uncolorized: Seq<u16>,
        x: int,
        y: int,
    ) -> u16 {
        match self.mask {
            MaskMode::Black => 0,
            MaskMode::Color0 => self.backdrop,
            _ => {
                let shade = src[y * 160 + x] % 4;
                match self.spec_color_for(x / 8, y / 8, shade) {
                    Some(c) => c,
                    None => uncolorized[shade as int],
                }
            },
        }
    }

    /// The 15-bit colour of picture pixel (`px`, `py`): the border where it is
    /// opaque, else the screen inside its window and the backdrop around it.
    #[verifier::opaque]
    pub open spec fn composite_color(
        &self,
        border: SgbBorder,
        src: Seq<u8>,
        uncolorized: Seq<u16>,
        px: int,
        py: int,
    ) -> u16 {
        match border.color_at(px, py) {
            Some(c) => c,
            None => if in_window(px, py) {
                self.screen_color(
                    src,
                    uncolorized,
                    px - SGB_WINDOW_X_START,
                    py - SGB_WINDOW_Y_START,
                )
            } else {
                self.backdrop
            },
        }
    }

    /// The whole picture as RGB bytes.
    pub open spec fn composite(
        &self,
        border: SgbBorder,
        src: Seq<u8>,
        uncolorized: Seq<u16>,
    ) -> Seq<u8> {
        Seq::new(
            (SGB_FRAME_SIZE * 3) as nat,
            |i: int|
                channel(
                    rgb888(
                        self.composite_color(
                            border,
                            src,
                            uncolorized,
                            (i / 3) % 256,
                            (i / 3) / 256,
                        ),
                    ),
                    i % 3,
                ),
        )
    }

    /// The ring: opaque around the screen, transparent inside its window.
    pub open spec fn ring(&self, border: SgbBorder) -> Seq<u8> {
        Seq::new(
            (SGB_FRAME_SIZE * 4) as nat,
            |i: int|
                {
                    let px = (i / 4) % 256;
                    let py = (i / 4) / 256;
                    let color = match border.color_at(px, py) {
                        Some(c) => c,
                        None => self.backdrop,
                    };
                    if in_window(px, py) {
                        0u8
                    } else if i % 4 == 3 {
                        0xFF
                    } else {
                        channel(rgb888(color), i % 4)
                    }
                },
        )
    }

    /// The colourised or plain screen.
    pub open spec fn frame(&self, src: Seq<u8>) -> FrameView {
        let blank = self.mask == MaskMode::Black || self.mask == MaskMode::Color0;
        if !self.colorized {
            if blank {
                FrameView::Monochrome(
                    filled(
                        FRAMEBUFFER_SIZE as nat,
                        if self.mask == MaskMode::Black { 3 } else { 0 },
                    ),
                )
            } else {
                FrameView::Monochrome(src)
            }
        } else if self.mask == MaskMode::Black {
            FrameView::Color(filled((FRAMEBUFFER_SIZE * 3) as nat, 0))
        } else {
            FrameView::Color(
                Seq::new(
                    (FRAMEBUFFER_SIZE * 3) as nat,
                    |i: int| channel(rgb888(self.frame_color(src, blank, i / 3)), i % 3),
                ),
            )
        }
    }

    /// The 15-bit colour of pixel number `p` of a colourised screen.
    pub open spec fn frame_color(&self, src: Seq<u8>, blank: bool, p: int) -> u16 {
        match self.spec_color_for(
            (p % 160) / 8,
            (p / 160) / 8,
            if blank { 0 } else { src[p] },
        ) {
            Some(c) => c,
            None => 0,
        }
    }
}

/// The part of the border that covers the screen: opaque where the border is,
/// transparent elsewhere.
pub open spec fn overlay_layer(border: SgbBorder) -> Seq<u8> {
    Seq::new(
        (FRAMEBUFFER_SIZE * 4) as nat,
        |i: int|
            {
                let x = (i / 4) % 160;
                let y = (i / 4) / 160;
                match border.color_at(x + SGB_WINDOW_X_START, y + SGB_WINDOW_Y_START) {
                    Some(c) => if i % 4 == 3 { 0xFFu8 } else { channel(rgb888(c), i % 4) },
                    None => 0,
                }
            },
    )
}

/// The border covers part of the screen.
pub open spec fn covers_window(border: SgbBorder) -> bool {
    exists|p: int|
        #![trigger covered_pixel(border, p)]
        0 <= p < FRAMEBUFFER_SIZE && covered_pixel(border, p)
}

pub open spec fn covered_pixel(border: SgbBorder, p: int) -> bool {
    border.color_at(p % 160 + SGB_WINDOW_X_START, p / 160 + SGB_WINDOW_Y_START) is Some
}

fn screen_color_exec(
    sgb: &Sgb,
    src: &Vec<u8>,
    uncolorized: &[u16; 4],
    x: usize,
    y: usize,
) -> (r: u16)
    requires
        sgb.wf(),
        src@.len() == FRAMEBUFFER_SIZE,
        x < 160,
        y < 144,
    ensures
        r == sgb.screen_color(src@, uncolorized@, x as int, y as int),
{
    match sgb.mask {
        MaskMode::Black => 0,
        MaskMode::Color0 => sgb.backdrop,
        _ => {
            let shade: u8 = src[y * 160 + x] % 4;
            match sgb.color_for(x / 8, y / 8, shade) {
                Some(c) => c,
                None => uncolorized[shade as usize],
            }
        },
    }
}

fn composite_color_exec(
    sgb: &Sgb,
    border: &SgbBorder,
    src: &Vec<u8>,
    uncolorized: &[u16; 4],
    px: usize,
    py: usize,
) -> (r: u16)
    requires
        sgb.wf(),
        border.wf(),
        src@.len() == FRAMEBUFFER_SIZE,
        px < 256,
        py < 224,
    ensures
        r == sgb.composite_color(*border, src@, uncolorized@, px as int, py as int),
{
    reveal(Sgb::composite_color);
    match border.get_color_at(px, py) {
        Some(c) => c,
        None => {
            if SGB_WINDOW_X_START <= px && px < SGB_WINDOW_X_END && SGB_WINDOW_Y_START <= py && py
                < SGB_WINDOW_Y_END {
                screen_color_exec(
                    sgb,
                    src,
                    uncolorized,
                    px - SGB_WINDOW_X_START,
                    py - SGB_WINDOW_Y_START,
                )
            } else {
                sgb.backdrop
            }
        },
    }
}

/// The picture with its border.
pub fn composite_picture(
    sgb: &Sgb,
    border: &SgbBorder,
    src: &Vec<u8>,
    uncolorized: &[u16; 4],
) -> (r: Vec<u8>)
    requires
        sgb.wf(),
        border.wf(),
        src@.len() == FRAMEBUFFER_SIZE,
    ensures
        r@ == sgb.composite(*border, src@, uncolorized@),
{
    let mut out: Vec<u8> = Vec::with_capacity(SGB_FRAME_SIZE * 3);
    let mut p: usize = 0;
    let ghost want = sgb.composite(*border, src@, uncolorized@);
    while p < SGB_FRAME_SIZE
        invariant
            sgb.wf(),
            border.wf(),
            src@.len() == FRAMEBUFFER_SIZE,
            p <= SGB_FRAME_SIZE,
            out@.len() == 3 * p,
            want == sgb.composite(*border, src@, uncolorized@),
            forall|k: int| 0 <= k < 3 * p ==> #[trigger] out@[k] == want[k],
        decreases SGB_FRAME_SIZE - p,
    {
        let color: u16 = composite_color_exec(sgb, border, src, uncolorized, p % 256, p / 256);
        let (r, g, b): (u8, u8, u8) = rgb555_to_rgb888(color);
        out.push(r);
        out.push(g);
        out.push(b);
        p += 1;
    }
    assert(out@ =~= want);
    out
}

fn push_rgba(out: &mut Vec<u8>, color: Option<u16>)
    ensures
        final(out)@ == old(out)@ + rgba(color),
{
    let (r, g, b, a): (u8, u8, u8, u8) = match color {
        Some(c) => {
            let (r, g, b): (u8, u8, u8) = rgb555_to_rgb888(c);
            (r, g, b, 0xFF)
        },
        None => (0, 0, 0, 0),
    };
    out.push(r);
    out.push(g);
    out.push(b);
    out.push(a);
    assert(out@ =~= old(out)@ + rgba(color));
}

/// Four bytes of an opaque colour or of a transparent pixel.
pub open spec fn rgba(color: Option<u16>) -> Seq<u8> {
    match color {
        Some(c) => seq![rgb888(c).0, rgb888(c).1, rgb888(c).2, 0xFFu8],
        None => seq![0u8, 0u8, 0u8, 0u8],
    }
}

fn ring_layer(sgb: &Sgb, border: &SgbBorder) -> (r: Vec<u8>)
    requires
        border.wf(),
    ensures
        r@ == sgb.ring(*border),
{
    let mut out: Vec<u8> = Vec::with_capacity(SGB_FRAME_SIZE * 4);
    let mut p: usize = 0;
    let ghost want = sgb.ring(*border);
    while p < SGB_FRAME_SIZE
        invariant
            border.wf(),
            p <= SGB_FRAME_SIZE,
            out@.len() == 4 * p,
            want == sgb.ring(*border),
            forall|k: int| 0 <= k < 4 * p ==> #[trigger] out@[k] == want[k],
        decreases SGB_FRAME_SIZE - p,
    {
        let px: usize = p % 256;
        let py: usize = p / 256;
        let inside = SGB_WINDOW_X_START <= px && px < SGB_WINDOW_X_END && SGB_WINDOW_Y_START <= py
            && py < SGB_WINDOW_Y_END;
        let color: Option<u16> = if inside {
            None
        } else {
            match border.get_color_at(px, py) {
                Some(c) => Some(c),
                None => Some(sgb.backdrop),
            }
        };
        push_rgba(&mut out, color);
        p += 1;
    }
    assert(out@ =~= want);
    out
}

fn overlay_of(border: &SgbBorder) -> (r: Option<Vec<u8>>)
    requires
        border.wf(),
    ensures
        r is Some <==> covers_window(*border),
        r matches Some(v) ==> v@ == overlay_layer(*border),
{
    let mut out: Vec<u8> = Vec::with_capacity(FRAMEBUFFER_SIZE * 4);
    let mut any = false;
    let mut p: usize = 0;
    let ghost want = overlay_layer(*border);
    while p < FRAMEBUFFER_SIZE
        invariant
            border.wf(),
            p <= FRAMEBUFFER_SIZE,
            out@.len() == 4 * p,
            want == overlay_layer(*border),
            forall|k: int| 0 <= k < 4 * p ==> #[trigger] out@[k] == want[k],
            any ==> covers_window(*border),
            !any ==> forall|k: int| 0 <= k < p ==> !#[trigger] covered_pixel(*border, k),
        decreases FRAMEBUFFER_SIZE - p,
    {
        let color: Option<u16> = border.get_color_at(
            p % 160 + SGB_WINDOW_X_START,
            p / 160 + SGB_WINDOW_Y_START,
        );
        assert(covered_pixel(*border, p as int) == (color is Some));
        if color.is_some() {
            any = true;
        }
        push_rgba(&mut out, color);
        p += 1;
    }
    assert(out@ =~= want);
    if any { Some(out) } else { None }
}

pub fn border_layers(sgb: &Sgb, border: &SgbBorder) -> (r: SgbBorderLayers)
    requires
        border.wf(),
    ensures
        r.ring@ == sgb.ring(*border),
        r.overlay is Some <==> covers_window(*border),
        r.overlay matches Some(v) ==> v@ == overlay_layer(*border),
{
    SgbBorderLayers { ring: ring_layer(sgb, border), overlay: overlay_of(border) }
}

/// The screen alone, colourised or in shades.
pub fn screen_picture(sgb: &Sgb, src: &Vec<u8>) -> (r: RenderedFrame)
    requires
        sgb.wf(),
        src@.len() == FRAMEBUFFER_SIZE,
    ensures
        r@ == sgb.frame(src@),
{
    let black = sgb.mask == MaskMode::Black;
    let blank = black || sgb.mask == MaskMode::Color0;
    if !sgb.colorized {
        if blank {
            return RenderedFrame::Monochrome(
                filled_vec(FRAMEBUFFER_SIZE, if black { 3 } else { 0 }),
            );
        }
        return RenderedFrame::Monochrome(crate::frames::copied(src));
    }
    if black {
        return RenderedFrame::Color(filled_vec(FRAMEBUFFER_SIZE * 3, 0));
    }
    let mut out: Vec<u8> = Vec::with_capacity(FRAMEBUFFER_SIZE * 3);
    let mut p: usize = 0;
    let ghost want = Seq::new(
        (FRAMEBUFFER_SIZE * 3) as nat,
        |i: int| channel(rgb888(sgb.frame_color(src@, blank, i / 3)), i % 3),
    );
    while p < FRAMEBUFFER_SIZE
        invariant
            sgb.wf(),
            src@.len() == FRAMEBUFFER_SIZE,
            p <= FRAMEBUFFER_SIZE,
            out@.len() == 3 * p,
            want == Seq::new(
                (FRAMEBUFFER_SIZE * 3) as nat,
                |i: int| channel(rgb888(sgb.frame_color(src@, blank, i / 3)), i % 3),
            ),
            forall|k: int| 0 <= k < 3 * p ==> #[trigger] out@[k] == want[k],
        decreases FRAMEBUFFER_SIZE - p,
    {
        let shade: u8 = if blank { 0 } else { src[p] };
        let color: u16 = match sgb.color_for((p % 160) / 8, (p / 160) / 8, shade) {
            Some(c) => c,
            None => 0,
        };
        let (r, g, b): (u8, u8, u8) = rgb555_to_rgb888(color);
        out.push(r);
        out.push(g);
        out.push(b);
        p += 1;
    }
    assert(out@ =~= want);
    RenderedFrame::Color(out)
}

/// The layers put together over the screen give the composited picture: the
/// ring around the window, and inside it the overlay where it is opaque, else
/// the screen.
pub proof fn law_layers_compose(
    sgb: Sgb,
    border: SgbBorder,
    src: Seq<u8>,
    uncolorized: Seq<u16>,
    px: int,
    py: int,
    c: int,
)
    requires
        0 <= px < SGB_FRAME_WIDTH,
        0 <= py < SGB_FRAME_HEIGHT,
        0 <= c < 3,
    ensures
        ({
            let at = py * 256 + px;
            let x = px - SGB_WINDOW_X_START;
            let y = py - SGB_WINDOW_Y_START;
            let in_at = y * 160 + x;
            let got = sgb.composite(border, src, uncolorized)[at * 3 + c];
            let ring = sgb.ring(border);
            let over = overlay_layer(border);
            if !in_window(px, py) {
                ring[at * 4 + 3] == 0xFF && got == ring[at * 4 + c]
            } else {
                &&& ring[at * 4 + 3] == 0
                &&& over[in_at * 4 + 3] == 0xFF || over[in_at * 4 + 3] == 0
                &&& got == if over[in_at * 4 + 3] == 0xFF {
                    over[in_at * 4 + c]
                } else {
                    channel(rgb888(sgb.screen_color(src, uncolorized, x, y)), c)
                }
            }
        }),
{
    reveal(Sgb::composite_color);
    let at = py * 256 + px;
    assert(at / 256 == py && at % 256 == px);
    assert((at * 3 + c) / 3 == at && (at * 3 + c) % 3 == c);
    assert((at * 4 + c) / 4 == at && (at * 4 + c) % 4 == c);
    assert((at * 4 + 3) / 4 == at && (at * 4 + 3) % 4 == 3);
    if in_window(px, py) {
        let x = px - SGB_WINDOW_X_START;
        let y = py - SGB_WINDOW_Y_START;
        let in_at = y * 160 + x;
        assert(in_at / 160 == y && in_at % 160 == x);
        assert((in_at * 4 + c) / 4 == in_at && (in_at * 4 + c) % 4 == c);
        assert((in_at * 4 + 3) / 4 == in_at && (in_at * 4 + 3) % 4 == 3);
    }
}

} // verus!
