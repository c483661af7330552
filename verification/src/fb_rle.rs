//! Compact form of a picture for saved states: one colour, a palette with
//! indices, runs of bytes, or the bytes themselves, whichever is smallest.

use std::collections::HashMap;
use vstd::prelude::*;

verus! {

/// Bytes of a variant's tag and of a length on the wire.
pub const TAG: u64 = 4;
pub const LEN: u64 = 8;
/// Bytes that a buffer can hold at most, by what can be allocated at once.
pub const BUFFER_LIMIT: u64 = 0x7FFF_FFFF_FFFF_FFFF;

/// A picture in compact form. Bytes beyond the last whole pixel go in `tail`.
#[derive(Clone, Debug)]
#[allow(inconsistent_fields)]
pub enum EncodedFb {
    /// Every pixel has the same colour.
    Solid { color: [u8; 3], tail: Vec<u8> },
    /// Up to 256 colours, one byte a pixel.
    Indexed8 { palette: Vec<[u8; 3]>, indices: Vec<u8>, tail: Vec<u8> },
    /// Up to 65536 colours, two bytes a pixel.
    Indexed16 { palette: Vec<[u8; 3]>, indices: Vec<u16>, tail: Vec<u8> },
    /// Bytes and how often each repeats.
    Rle(Vec<(u8, u32)>),
    Raw(Vec<u8>),
}

/// What can be wrong with a compact picture.
#[derive(Clone, Copy, Debug, PartialEq, Eq, Structural)]
pub enum FbError {
    SolidTailLength,
    RawLength,
    IndexLength,
    IndexRange,
    RleOverflow,
    RleUnderflow,
}

impl FbError {
    pub open spec fn spec_message(self) -> Seq<char> {
        match self {
            FbError::SolidTailLength => "framebuffer solid tail length mismatch"@,
            FbError::RawLength => "framebuffer raw length mismatch"@,
            FbError::IndexLength => "framebuffer index length mismatch"@,
            FbError::IndexRange => "framebuffer index out of range"@,
            FbError::RleOverflow => "framebuffer RLE overflow"@,
            FbError::RleUnderflow => "framebuffer RLE underflow"@,
        }
    }

    pub fn message(self) -> (r: &'static str)
        ensures
            r@ == self.spec_message(),
    {
        match self {
            FbError::SolidTailLength => "framebuffer solid tail length mismatch",
            FbError::RawLength => "framebuffer raw length mismatch",
            FbError::IndexLength => "framebuffer index length mismatch",
            FbError::IndexRange => "framebuffer index out of range",
            FbError::RleOverflow => "framebuffer RLE overflow",
            FbError::RleUnderflow => "framebuffer RLE underflow",
        }
    }
}

/// A colour.
pub type Color = (u8, u8, u8);

/// What an `EncodedFb` holds; indices as numbers.
#[allow(inconsistent_fields)]
pub enum EncodedView {
    Solid { color: Color, tail: Seq<u8> },
    Indexed8 { palette: Seq<Color>, indices: Seq<u8>, tail: Seq<u8> },
    Indexed16 { palette: Seq<Color>, indices: Seq<u16>, tail: Seq<u8> },
    Rle(Seq<(u8, u32)>),
    Raw(Seq<u8>),
}

pub open spec fn color_of(c: [u8; 3]) -> Color {
    (c[0], c[1], c[2])
}

pub open spec fn colors_of(s: Seq<[u8; 3]>) -> Seq<Color> {
    Seq::new(s.len(), |i: int| color_of(s[i]))
}

impl View for EncodedFb {
    type V = EncodedView;

    open spec fn view(&self) -> EncodedView {
        match self {
            EncodedFb::Solid { color, tail } => EncodedView::Solid {
                color: color_of(*color),
                tail: tail@,
            },
            EncodedFb::Indexed8 { palette, indices, tail } => EncodedView::Indexed8 {
                palette: colors_of(palette@),
                indices: indices@,
                tail: tail@,
            },
            EncodedFb::Indexed16 { palette, indices, tail } => EncodedView::Indexed16 {
                palette: colors_of(palette@),
                indices: indices@,
                tail: tail@,
            },
            EncodedFb::Rle(runs) => EncodedView::Rle(runs@),
            EncodedFb::Raw(bytes) => EncodedView::Raw(bytes@),
        }
    }
}

/// Component `c` of a colour.
pub open spec fn component(c: Color, i: int) -> u8 {
    if i == 0 {
        c.0
    } else if i == 1 {
        c.1
    } else {
        c.2
    }
}

/// Pixel `p` of a buffer.
pub open spec fn pixel(buf: Seq<u8>, p: int) -> Color {
    (buf[3 * p], buf[3 * p + 1], buf[3 * p + 2])
}

/// The colours of the first `n` pixels, each once, in order of appearance.
pub open spec fn palette_of(buf: Seq<u8>, n: int) -> Seq<Color>
    decreases n,
{
    if n <= 0 {
        Seq::empty()
    } else {
        let prev = palette_of(buf, n - 1);
        let c = pixel(buf, n - 1);
        if prev.contains(c) { prev } else { prev.push(c) }
    }
}

/// The runs of equal bytes in the first `n` bytes.
pub open spec fn runs_of(buf: Seq<u8>, n: int) -> Seq<(u8, u32)>
    decreases n,
{
    if n <= 0 {
        Seq::empty()
    } else {
        let prev = runs_of(buf, n - 1);
        let b = buf[n - 1];
        if prev.len() > 0 && prev.last().0 == b {
            prev.drop_last().push((b, (prev.last().1 + 1) as u32))
        } else {
            prev.push((b, 1))
        }
    }
}

/// The bytes that some runs stand for.
pub open spec fn unrolled(runs: Seq<(u8, u32)>) -> Seq<u8>
    decreases runs.len(),
{
    if runs.len() == 0 {
        Seq::empty()
    } else {
        let (v, c) = runs.last();
        unrolled(runs.drop_last()) + Seq::new(c as nat, |i: int| v)
    }
}

/// How many bytes some runs stand for.
pub open spec fn runs_total(runs: Seq<(u8, u32)>) -> int
    decreases runs.len(),
{
    if runs.len() == 0 { 0 } else { runs_total(runs.drop_last()) + runs.last().1 }
}

/// Size of a compact picture on the wire.
pub open spec fn wire_size(e: EncodedView) -> int {
    match e {
        EncodedView::Solid { color: _, tail } => TAG + 3 + LEN + tail.len(),
        EncodedView::Indexed8 { palette, indices, tail } => TAG + LEN + 3 * palette.len() + LEN
            + indices.len() + LEN + tail.len(),
        EncodedView::Indexed16 { palette, indices, tail } => TAG + LEN + 3 * palette.len() + LEN + 2
            * indices.len() + LEN + tail.len(),
        EncodedView::Rle(runs) => TAG + LEN + 5 * runs.len(),
        EncodedView::Raw(bytes) => TAG + LEN + bytes.len(),
    }
}

/// Where the palette entry of each pixel is.
pub open spec fn indices_of(buf: Seq<u8>, palette: Seq<Color>) -> Seq<int> {
    Seq::new((buf.len() / 3) as nat, |p: int| palette.index_of(pixel(buf, p)))
}

/// The forms that a buffer can take, in order of preference.
pub open spec fn as_solid(buf: Seq<u8>) -> EncodedView {
    EncodedView::Solid { color: pixel(buf, 0), tail: tail_of(buf) }
}

pub open spec fn as_indexed8(buf: Seq<u8>) -> EncodedView {
    let palette = palette_of(buf, buf.len() as int / 3);
    EncodedView::Indexed8 {
        palette,
        indices: indices_of(buf, palette).map_values(|i: int| i as u8),
        tail: tail_of(buf),
    }
}

pub open spec fn as_indexed16(buf: Seq<u8>) -> EncodedView {
    let palette = palette_of(buf, buf.len() as int / 3);
    EncodedView::Indexed16 {
        palette,
        indices: indices_of(buf, palette).map_values(|i: int| i as u16),
        tail: tail_of(buf),
    }
}

pub open spec fn as_rle(buf: Seq<u8>) -> EncodedView {
    EncodedView::Rle(runs_of(buf, buf.len() as int))
}

/// Bytes beyond the last whole pixel.
pub open spec fn tail_of(buf: Seq<u8>) -> Seq<u8> {
    buf.skip(buf.len() as int / 3 * 3)
}

/// Number of colours in a buffer.
pub open spec fn color_count(buf: Seq<u8>) -> int {
    palette_of(buf, buf.len() as int / 3).len() as int
}

/// Whether form `e` is no larger than the byte-wise forms and the other given.
pub open spec fn fits(e: EncodedView, other: EncodedView, other_ok: bool) -> bool {
    other_ok ==> wire_size(e) <= wire_size(other)
}

/// The smallest form that can hold the buffer; the simplest of equally small
/// ones.
pub open spec fn encoded(buf: Seq<u8>) -> EncodedView {
    let n = color_count(buf);
    let raw = EncodedView::Raw(buf);
    let ok8 = n <= 256;
    let ok16 = n <= 65536;
    if n == 1 && fits(as_solid(buf), as_indexed8(buf), ok8) && fits(
        as_solid(buf),
        as_indexed16(buf),
        ok16,
    ) && fits(as_solid(buf), as_rle(buf), true) && fits(as_solid(buf), raw, true) {
        as_solid(buf)
    } else if ok8 && fits(as_indexed8(buf), as_solid(buf), n == 1) && fits(
        as_indexed8(buf),
        as_indexed16(buf),
        ok16,
    ) && fits(as_indexed8(buf), as_rle(buf), true) && fits(as_indexed8(buf), raw, true) {
        as_indexed8(buf)
    } else if ok16 && fits(as_indexed16(buf), as_solid(buf), n == 1) && fits(
        as_indexed16(buf),
        as_indexed8(buf),
        ok8,
    ) && fits(as_indexed16(buf), as_rle(buf), true) && fits(as_indexed16(buf), raw, true) {
        as_indexed16(buf)
    } else if fits(as_rle(buf), raw, true) {
        as_rle(buf)
    } else {
        raw
    }
}

/// The bytes of indexed pixels.
pub open spec fn indexed_bytes(palette: Seq<Color>, indices: Seq<int>, tail: Seq<u8>) -> Seq<u8> {
    Seq::new(
        3 * indices.len() + tail.len(),
        |i: int|
            if i < 3 * indices.len() {
                component(palette[indices[i / 3]], i % 3)
            } else {
                tail[i - 3 * indices.len()]
            },
    )
}

/// Every index has its palette entry.
pub open spec fn indices_in_range(palette: Seq<Color>, indices: Seq<int>) -> bool {
    forall|p: int| 0 <= p < indices.len() ==> 0 <= #[trigger] indices[p] < palette.len()
}

/// The picture of `n` bytes that indexed pixels stand for.
pub open spec fn expanded(
    palette: Seq<Color>,
    indices: Seq<int>,
    tail: Seq<u8>,
    n: int,
) -> Result<Seq<u8>, FbError> {
    if 3 * indices.len() + tail.len() != n {
        Err(FbError::IndexLength)
    } else if !indices_in_range(palette, indices) {
        Err(FbError::IndexRange)
    } else {
        Ok(indexed_bytes(palette, indices, tail))
    }
}

/// The picture of `n` bytes that a compact form stands for.
pub open spec fn decoded(e: EncodedView, n: int) -> Result<Seq<u8>, FbError> {
    match e {
        EncodedView::Solid { color, tail } => if tail.len() != n % 3 {
            Err(FbError::SolidTailLength)
        } else {
            Ok(
                Seq::new(
                    n as nat,
                    |i: int|
                        if i < n / 3 * 3 { component(color, i % 3) } else { tail[i - n / 3 * 3] },
                ),
            )
        },
        EncodedView::Indexed8 { palette, indices, tail } => expanded(
            palette,
            indices.map_values(|i: u8| i as int),
            tail,
            n,
        ),
        EncodedView::Indexed16 { palette, indices, tail } => expanded(
            palette,
            indices.map_values(|i: u16| i as int),
            tail,
            n,
        ),
        EncodedView::Rle(runs) => if runs_total(runs) > n {
            Err(FbError::RleOverflow)
        } else if runs_total(runs) < n {
            Err(FbError::RleUnderflow)
        } else {
            Ok(unrolled(runs))
        },
        EncodedView::Raw(bytes) => if bytes.len() != n { Err(FbError::RawLength) } else { Ok(bytes)
        },
    }
}

/// No byte repeats more often than a run can count.
pub open spec fn short_runs(buf: Seq<u8>) -> bool {
    forall|i: int|
        0 <= i && i + u32::MAX < buf.len() ==> exists|j: int|
            i < j <= i + u32::MAX && #[trigger] buf[j] != #[trigger] buf[i]
}

/// A buffer with fewer bytes than a run can count has short runs.
pub proof fn law_small_buffers_have_short_runs(buf: Seq<u8>)
    requires
        buf.len() <= u32::MAX,
    ensures
        short_runs(buf),
{
}

proof fn lemma_runs(buf: Seq<u8>, n: int)
    requires
        0 <= n <= buf.len(),
        short_runs(buf),
    ensures
        n > 0 ==> runs_of(buf, n).last().1 <= n && forall|k: int|
            n - runs_of(buf, n).last().1 <= k < n ==> #[trigger] buf[k] == buf[n - 1],
        unrolled(runs_of(buf, n)) == buf.take(n),
        runs_total(runs_of(buf, n)) == n,
        n > 0 ==> runs_of(buf, n).len() > 0 && runs_of(buf, n).last().0 == buf[n - 1],
        n < buf.len() && n > 0 && buf[n] == buf[n - 1] ==> runs_of(buf, n).last().1 < u32::MAX,
        runs_of(buf, n).len() <= n,
    decreases n,
{
    if n > 0 {
        lemma_runs(buf, n - 1);
        let prev = runs_of(buf, n - 1);
        let b = buf[n - 1];
        let cur = runs_of(buf, n);
        assert(buf.take(n) =~= buf.take(n - 1).push(b));
        if prev.len() > 0 && prev.last().0 == b {
            let (v, c) = prev.last();
            assert(cur.drop_last() =~= prev.drop_last());
            assert(Seq::new((c + 1) as nat, |i: int| v) =~= Seq::new(c as nat, |i: int| v).push(b));
            assert(unrolled(cur) =~= unrolled(prev).push(b));
        } else {
            assert(cur.drop_last() =~= prev);
            assert(unrolled(cur) =~= unrolled(prev).push(b));
        }
        let c = cur.last().1;
        if n < buf.len() && buf[n] == b && c == u32::MAX {
            let i = n - c;
            assert(buf[i] == b);
            let j = choose|j: int|
                i < j <= i + u32::MAX && #[trigger] buf[j] != #[trigger] buf[i];
            assert(buf[j] == b);
        }
    } else {
        assert(unrolled(runs_of(buf, n)) =~= buf.take(n));
    }
}

proof fn lemma_runs_grow(buf: Seq<u8>, a: int, b: int)
    requires
        0 <= a <= b,
    ensures
        runs_of(buf, a).len() <= runs_of(buf, b).len(),
    decreases b,
{
    if a < b {
        lemma_runs_grow(buf, a, b - 1);
    }
}

proof fn lemma_palette(buf: Seq<u8>, n: int)
    requires
        0 <= n,
    ensures
        palette_of(buf, n).no_duplicates(),
        palette_of(buf, n).len() <= n,
        forall|p: int| 0 <= p < n ==> palette_of(buf, n).contains(#[trigger] pixel(buf, p)),
        n > 0 ==> palette_of(buf, n).len() > 0 && palette_of(buf, n)[0] == pixel(buf, 0),
    decreases n,
{
    if n > 0 {
        lemma_palette(buf, n - 1);
        let prev = palette_of(buf, n - 1);
        let c = pixel(buf, n - 1);
        let cur = palette_of(buf, n);
        assert forall|p: int| 0 <= p < n implies cur.contains(#[trigger] pixel(buf, p)) by {
            if p < n - 1 {
                let i = choose|i: int| 0 <= i < prev.len() && prev[i] == pixel(buf, p);
                assert(cur[i] == pixel(buf, p));
            } else if !prev.contains(c) {
                assert(cur[prev.len() as int] == c);
            }
        }
    }
}

proof fn lemma_index_of(pal: Seq<Color>, c: Color)
    requires
        pal.contains(c),
    ensures
        0 <= pal.index_of(c) < pal.len(),
        pal[pal.index_of(c)] == c,
{
    let i = choose|i: int| 0 <= i < pal.len() && pal[i] == c;
}

/// What was encoded is decoded to the same bytes.
pub proof fn law_codec_round_trip(buf: Seq<u8>)
    requires
        short_runs(buf),
    ensures
        decoded(encoded(buf), buf.len() as int) == Ok::<Seq<u8>, FbError>(buf),
{
    let n = buf.len() as int;
    let px = n / 3;
    let pal = palette_of(buf, px);
    lemma_palette(buf, px);
    lemma_runs(buf, n);
    assert(buf.take(n) =~= buf);
    let indices = indices_of(buf, pal);
    assert forall|p: int| 0 <= p < px implies 0 <= #[trigger] indices[p] < pal.len()
        && pal[indices[p]] == pixel(buf, p) by {
        assert(pal.contains(pixel(buf, p)));
        lemma_index_of(pal, pixel(buf, p));
    }
    match encoded(buf) {
        EncodedView::Solid { color, tail } => {
            assert forall|p: int| 0 <= p < px implies #[trigger] pixel(buf, p) == pixel(
                buf,
                0,
            ) by {
                assert(pal.contains(pixel(buf, p)));
            }
            let got = decoded(encoded(buf), n)->Ok_0;
            assert forall|i: int| 0 <= i < n implies got[i] == buf[i] by {
                if i < px * 3 {
                    assert(pixel(buf, i / 3) == pixel(buf, 0));
                }
            }
            assert(got =~= buf);
        },
        EncodedView::Indexed8 { palette, indices: idx, tail } => {
            assert(idx.map_values(|i: u8| i as int) =~= indices);
            lemma_indexed_bytes(buf, pal, indices);
        },
        EncodedView::Indexed16 { palette, indices: idx, tail } => {
            assert(idx.map_values(|i: u16| i as int) =~= indices);
            lemma_indexed_bytes(buf, pal, indices);
        },
        _ => {},
    }
}

proof fn lemma_indexed_bytes(buf: Seq<u8>, pal: Seq<Color>, indices: Seq<int>)
    requires
        indices.len() == buf.len() / 3,
        forall|p: int|
            0 <= p < indices.len() ==> 0 <= #[trigger] indices[p] < pal.len() && pal[indices[p]]
                == pixel(buf, p),
    ensures
        expanded(pal, indices, tail_of(buf), buf.len() as int) == Ok::<Seq<u8>, FbError>(buf),
{
    let got = indexed_bytes(pal, indices, tail_of(buf));
    assert forall|i: int| 0 <= i < buf.len() implies got[i] == buf[i] by {
        if i < 3 * indices.len() {
            assert(pal[indices[i / 3]] == pixel(buf, i / 3));
        }
    }
    assert(got =~= buf);
}

/// The compact form is never larger than the plain bytes with their header, nor
/// than any other form that can hold the buffer.
pub proof fn law_encoded_is_smallest(buf: Seq<u8>)
    ensures
        wire_size(encoded(buf)) <= TAG + LEN + buf.len(),
        wire_size(encoded(buf)) <= wire_size(as_rle(buf)),
        color_count(buf) == 1 ==> wire_size(encoded(buf)) <= wire_size(as_solid(buf)),
        color_count(buf) <= 256 ==> wire_size(encoded(buf)) <= wire_size(as_indexed8(buf)),
        color_count(buf) <= 65536 ==> wire_size(encoded(buf)) <= wire_size(as_indexed16(buf)),
{
}

/// The compact form is one of those that can hold the buffer.
pub proof fn law_encoded_is_a_usable_form(buf: Seq<u8>)
    ensures
        ({
            let e = encoded(buf);
            let n = color_count(buf);
            (e == as_solid(buf) && n == 1) || (e == as_indexed8(buf) && n <= 256) || (e
                == as_indexed16(buf) && n <= 65536) || e == as_rle(buf) || e == EncodedView::Raw(buf)
        }),
{
}

/// The sizes of the forms, by the numbers of pixels, of bytes beyond them, of
/// colours and of runs.
pub proof fn law_form_sizes(buf: Seq<u8>)
    ensures
        ({
            let pixels = buf.len() as int / 3;
            let rest = buf.len() % 3;
            let colors = color_count(buf);
            let runs = runs_of(buf, buf.len() as int).len();
            &&& wire_size(as_solid(buf)) == 15 + rest
            &&& wire_size(as_indexed8(buf)) == 28 + 3 * colors + pixels + rest
            &&& wire_size(as_indexed16(buf)) == 28 + 3 * colors + 2 * pixels + rest
            &&& wire_size(as_rle(buf)) == 12 + 5 * runs
            &&& wire_size(EncodedView::Raw(buf)) == 12 + buf.len()
        }),
{
}

/// A colour as one number.
spec fn packed(c: Color) -> int {
    c.0 * 65536 + c.1 * 256 + c.2
}

fn pack(c: &[u8; 3]) -> (r: u32)
    ensures
        r == packed(color_of(*c)),
{
    c[0] as u32 * 65536 + c[1] as u32 * 256 + c[2] as u32
}

proof fn lemma_packed_injective(a: Color, b: Color)
    requires
        packed(a) == packed(b),
    ensures
        a == b,
{
}

/// There are no more colours than numbers of three bytes.
proof fn lemma_color_total(buf: Seq<u8>, n: int)
    requires
        0 <= n,
    ensures
        palette_of(buf, n).len() <= 0x100_0000,
{
    let pal = palette_of(buf, n);
    let numbers = pal.map_values(|c: Color| packed(c));
    lemma_palette(buf, n);
    assert(numbers.no_duplicates()) by {
        assert forall|i: int, j: int|
            0 <= i < numbers.len() && 0 <= j < numbers.len() && i != j implies numbers[i]
            != numbers[j] by {
            if numbers[i] == numbers[j] {
                lemma_packed_injective(pal[i], pal[j]);
            }
        }
    }
    numbers.unique_seq_to_set();
    vstd::set_lib::lemma_int_range(0, 0x100_0000);
    let all = vstd::set_lib::set_int_range(0, 0x100_0000);
    assert forall|x: int| numbers.to_set().contains(x) implies all.contains(x) by {
        let i = choose|i: int| 0 <= i < numbers.len() && numbers[i] == x;
        assert(x == packed(pal[i]));
    }
    vstd::set_lib::lemma_len_subset(numbers.to_set(), all);
}

/// The palette of the buffer's pixels, and each pixel's place in it.
fn intern(buf: &Vec<u8>) -> (r: (Vec<[u8; 3]>, Vec<u32>))
    ensures
        r.0@.len() <= 0x100_0000,
        colors_of(r.0@) == palette_of(buf@, buf@.len() as int / 3),
        r.1@.len() == buf@.len() / 3,
        forall|p: int|
            0 <= p < r.1@.len() ==> #[trigger] r.1@[p] == indices_of(
                buf@,
                palette_of(buf@, buf@.len() as int / 3),
            )[p],
        r.0@.len() <= buf@.len() / 3,
{
    broadcast use vstd::std_specs::hash::group_hash_axioms;

    let n: usize = buf.len();
    let pixels: usize = n / 3;
    let mut lut: HashMap<u32, u32> = HashMap::new();
    let mut palette: Vec<[u8; 3]> = Vec::new();
    let mut indices: Vec<u32> = Vec::new();
    let mut p: usize = 0;
    let ghost whole = palette_of(buf@, pixels as int);
    assert(colors_of(palette@) =~= palette_of(buf@, 0));
    proof {
        lemma_palette(buf@, pixels as int);
    }
    while p < pixels
        invariant
            n == buf@.len(),
            pixels == n / 3,
            p <= pixels,
            colors_of(palette@) == palette_of(buf@, p as int),
            palette@.len() <= p,
            indices@.len() == p,
            forall|k: int|
                0 <= k < p ==> (#[trigger] indices@[k]) < palette@.len() && color_of(
                    palette@[indices@[k] as int],
                ) == pixel(buf@, k),
            forall|k: u32| #[trigger]
                lut@.contains_key(k) ==> lut@[k] < palette@.len() && packed(
                    color_of(palette@[lut@[k] as int]),
                ) == k,
            forall|i: int|
                0 <= i < palette@.len() ==> lut@.contains_key(
                    packed(color_of(#[trigger] palette@[i])) as u32,
                ),
        decreases pixels - p,
    {
        broadcast use vstd::std_specs::hash::group_hash_axioms;

        assert(p * 3 + 2 < n);
        let color: [u8; 3] = [buf[p * 3], buf[p * 3 + 1], buf[p * 3 + 2]];
        let key: u32 = pack(&color);
        let ghost c = pixel(buf@, p as int);
        let ghost before = palette@;
        assert(color_of(color) == c);
        let found: Option<&u32> = lut.get(&key);
        let idx: u32 = match found {
            Some(i) => {
                proof {
                    lemma_packed_injective(color_of(palette@[*i as int]), c);
                    assert(colors_of(palette@)[*i as int] == c);
                }
                *i
            },
            None => {
                proof {
                    lemma_color_total(buf@, p as int);
                }
                let i: u32 = palette.len() as u32;
                proof {
                    assert(!colors_of(palette@).contains(c)) by {
                        if colors_of(palette@).contains(c) {
                            let j = choose|j: int|
                                0 <= j < colors_of(palette@).len() && colors_of(palette@)[j] == c;
                            assert(color_of(palette@[j]) == c);
                            assert(lut@.contains_key(key));
                        }
                    }
                }
                palette.push(color);
                lut.insert(key, i);
                assert(colors_of(palette@) =~= colors_of(before).push(c));
                i
            },
        };
        indices.push(idx);
        proof {
            assert(forall|k: int| 0 <= k < before.len() ==> palette@[k] == before[k]);
        }
        p += 1;
    }
    proof {
        assert forall|k: int| 0 <= k < pixels implies #[trigger] indices@[k] == indices_of(
            buf@,
            whole,
        )[k] by {
            let c = pixel(buf@, k);
            assert(colors_of(palette@)[indices@[k] as int] == c);
            assert(whole.contains(c));
            lemma_index_of(whole, c);
        }
        lemma_color_total(buf@, pixels as int);
    }
    (palette, indices)
}

/// The runs of the buffer, or none where they would not pay.
fn find_runs(buf: &Vec<u8>) -> (r: Option<Vec<(u8, u32)>>)
    requires
        short_runs(buf@),
        buf@.len() <= BUFFER_LIMIT,
    ensures
        r matches Some(v) ==> v@ == runs_of(buf@, buf@.len() as int) && 5 * v@.len() < buf@.len()
            + 5,
        r is None ==> 5 * runs_of(buf@, buf@.len() as int).len() > buf@.len(),
{
    let n: usize = buf.len();
    let mut runs: Vec<(u8, u32)> = Vec::new();
    let mut i: usize = 0;
    while i < n
        invariant
            n == buf@.len(),
            n <= BUFFER_LIMIT,
            short_runs(buf@),
            i <= n,
            runs@ == runs_of(buf@, i as int),
            runs@.len() <= i,
            5 * runs@.len() < n + 5,
        decreases n - i,
    {
        let b: u8 = buf[i];
        let k: usize = runs.len();
        proof {
            lemma_runs(buf@, i as int);
        }
        if k > 0 && runs[k - 1].0 == b {
            let c: u32 = runs[k - 1].1;
            runs.set(k - 1, (b, c + 1));
            assert(runs@ =~= runs_of(buf@, i + 1));
        } else {
            if k as u64 * 5 >= n as u64 {
                proof {
                    lemma_runs_grow(buf@, i + 1, n as int);
                }
                return None;
            }
            runs.push((b, 1));
        }
        i += 1;
    }
    Some(runs)
}

fn tail_bytes(buf: &Vec<u8>) -> (r: Vec<u8>)
    ensures
        r@ == tail_of(buf@),
{
    let start: usize = buf.len() / 3 * 3;
    let mut out: Vec<u8> = Vec::new();
    let mut i: usize = start;
    while i < buf.len()
        invariant
            start == buf@.len() / 3 * 3,
            start <= i <= buf@.len(),
            out@ == buf@.subrange(start as int, i as int),
        decreases buf@.len() - i,
    {
        out.push(buf[i]);
        i += 1;
        assert(out@ =~= buf@.subrange(start as int, i as int));
    }
    assert(out@ =~= tail_of(buf@));
    out
}

fn min_cost(a: u64, b: u64) -> (r: u64)
    ensures
        r == if a <= b { a } else { b },
{
    if a <= b { a } else { b }
}

/// Encodes a buffer in its smallest form.
pub fn encode(buf: &Vec<u8>) -> (r: EncodedFb)
    requires
        short_runs(buf@),
        buf@.len() <= BUFFER_LIMIT,
    ensures
        r@ == encoded(buf@),
{
    let n: u64 = buf.len() as u64;
    let pixels: u64 = n / 3;
    let tail: Vec<u8> = tail_bytes(buf);
    let t: u64 = tail.len() as u64;
    let runs: Option<Vec<(u8, u32)>> = find_runs(buf);
    let (palette, indices): (Vec<[u8; 3]>, Vec<u32>) = intern(buf);
    let ncol: u64 = palette.len() as u64;
    let ghost pal = palette_of(buf@, buf@.len() as int / 3);
    proof {
        lemma_palette(buf@, pixels as int);
        assert(ncol == color_count(buf@));
    }
    let raw_cost: u64 = TAG + LEN + n;
    let solid_cost: u64 = if ncol == 1 { TAG + 3 + LEN + t } else { u64::MAX };
    let idx8_cost: u64 = if ncol <= 256 {
        TAG + LEN + ncol * 3 + LEN + pixels + LEN + t
    } else {
        u64::MAX
    };
    let idx16_cost: u64 = if ncol <= 65536 {
        TAG + LEN + ncol * 3 + LEN + pixels * 2 + LEN + t
    } else {
        u64::MAX
    };
    let rle_cost: u64 = match &runs {
        Some(v) => TAG + LEN + v.len() as u64 * 5,
        None => u64::MAX,
    };
    let best: u64 = min_cost(
        min_cost(min_cost(min_cost(solid_cost, idx8_cost), idx16_cost), rle_cost),
        raw_cost,
    );
    if best == solid_cost {
        assert(colors_of(palette@)[0] == pal[0]);
        EncodedFb::Solid { color: palette[0], tail }
    } else if best == idx8_cost {
        let narrow: Vec<u8> = narrow8(&indices);
        assert(narrow@ =~= indices_of(buf@, pal).map_values(|i: int| i as u8));
        EncodedFb::Indexed8 { palette, indices: narrow, tail }
    } else if best == idx16_cost {
        let narrow: Vec<u16> = narrow16(&indices);
        assert(narrow@ =~= indices_of(buf@, pal).map_values(|i: int| i as u16));
        EncodedFb::Indexed16 { palette, indices: narrow, tail }
    } else {
        match runs {
            Some(v) if best == rle_cost => EncodedFb::Rle(v),
            _ => EncodedFb::Raw(crate::frames::copied(buf)),
        }
    }
}

fn narrow8(v: &Vec<u32>) -> (r: Vec<u8>)
    ensures
        r@.len() == v@.len(),
        forall|i: int| 0 <= i < v@.len() ==> #[trigger] r@[i] == v@[i] as u8,
{
    let mut out: Vec<u8> = Vec::with_capacity(v.len());
    let mut i: usize = 0;
    while i < v.len()
        invariant
            i <= v@.len(),
            out@.len() == i,
            forall|k: int| 0 <= k < i ==> #[trigger] out@[k] == v@[k] as u8,
        decreases v@.len() - i,
    {
        out.push(v[i] as u8);
        i += 1;
    }
    out
}

fn narrow16(v: &Vec<u32>) -> (r: Vec<u16>)
    ensures
        r@.len() == v@.len(),
        forall|i: int| 0 <= i < v@.len() ==> #[trigger] r@[i] == v@[i] as u16,
{
    let mut out: Vec<u16> = Vec::with_capacity(v.len());
    let mut i: usize = 0;
    while i < v.len()
        invariant
            i <= v@.len(),
            out@.len() == i,
            forall|k: int| 0 <= k < i ==> #[trigger] out@[k] == v@[k] as u16,
        decreases v@.len() - i,
    {
        out.push(v[i] as u16);
        i += 1;
    }
    out
}

fn widen8(v: &Vec<u8>) -> (r: Vec<usize>)
    ensures
        r@.len() == v@.len(),
        forall|i: int| 0 <= i < v@.len() ==> #[trigger] r@[i] == v@[i],
{
    let mut out: Vec<usize> = Vec::with_capacity(v.len());
    let mut i: usize = 0;
    while i < v.len()
        invariant
            i <= v@.len(),
            out@.len() == i,
            forall|k: int| 0 <= k < i ==> #[trigger] out@[k] == v@[k],
        decreases v@.len() - i,
    {
        out.push(v[i] as usize);
        i += 1;
    }
    out
}

fn widen16(v: &Vec<u16>) -> (r: Vec<usize>)
    ensures
        r@.len() == v@.len(),
        forall|i: int| 0 <= i < v@.len() ==> #[trigger] r@[i] == v@[i],
{
    let mut out: Vec<usize> = Vec::with_capacity(v.len());
    let mut i: usize = 0;
    while i < v.len()
        invariant
            i <= v@.len(),
            out@.len() == i,
            forall|k: int| 0 <= k < i ==> #[trigger] out@[k] == v@[k],
        decreases v@.len() - i,
    {
        out.push(v[i] as usize);
        i += 1;
    }
    out
}

/// The picture that indexed pixels stand for.
fn expand(palette: &Vec<[u8; 3]>, indices: &Vec<usize>, tail: &Vec<u8>, n: usize) -> (r: Result<
    Vec<u8>,
    FbError,
>)
    ensures
        match r {
            Ok(v) => expanded(
                colors_of(palette@),
                indices@.map_values(|i: usize| i as int),
                tail@,
                n as int,
            ) == Ok::<Seq<u8>, FbError>(v@),
            Err(e) => expanded(
                colors_of(palette@),
                indices@.map_values(|i: usize| i as int),
                tail@,
                n as int,
            ) == Err::<Seq<u8>, FbError>(e),
        },
{
    let ghost idx = indices@.map_values(|i: usize| i as int);
    if indices.len() > n / 3 || tail.len() != n - indices.len() * 3 {
        return Err(FbError::IndexLength);
    }
    let ghost want = indexed_bytes(colors_of(palette@), idx, tail@);
    let mut out: Vec<u8> = Vec::with_capacity(n);
    let mut p: usize = 0;
    while p < indices.len()
        invariant
            p <= indices@.len(),
            idx == indices@.map_values(|i: usize| i as int),
            want == indexed_bytes(colors_of(palette@), idx, tail@),
            out@.len() == 3 * p,
            forall|k: int| 0 <= k < p ==> 0 <= #[trigger] idx[k] < palette@.len(),
            forall|k: int| 0 <= k < 3 * p ==> #[trigger] out@[k] == want[k],
            indices@.len() * 3 + tail@.len() == n,
        decreases indices@.len() - p,
    {
        let i: usize = indices[p];
        assert(idx[p as int] == i);
        if i >= palette.len() {
            assert(!indices_in_range(colors_of(palette@), idx));
            return Err(FbError::IndexRange);
        }
        let c: [u8; 3] = palette[i];
        out.push(c[0]);
        out.push(c[1]);
        out.push(c[2]);
        p += 1;
    }
    let mut k: usize = 0;
    while k < tail.len()
        invariant
            k <= tail@.len(),
            idx == indices@.map_values(|i: usize| i as int),
            want == indexed_bytes(colors_of(palette@), idx, tail@),
            out@.len() == 3 * indices@.len() + k,
            forall|j: int| 0 <= j < out@.len() ==> #[trigger] out@[j] == want[j],
        decreases tail@.len() - k,
    {
        out.push(tail[k]);
        k += 1;
    }
    assert(out@ =~= want);
    Ok(out)
}

fn unroll(runs: &Vec<(u8, u32)>, n: usize) -> (r: Result<Vec<u8>, FbError>)
    ensures
        match r {
            Ok(v) => runs_total(runs@) == n && v@ == unrolled(runs@),
            Err(e) => if runs_total(runs@) > n {
                e == FbError::RleOverflow
            } else {
                runs_total(runs@) < n && e == FbError::RleUnderflow
            },
        },
{
    let mut out: Vec<u8> = Vec::with_capacity(n);
    let mut i: usize = 0;
    assert(runs@.take(0) =~= Seq::<(u8, u32)>::empty());
    while i < runs.len()
        invariant
            i <= runs@.len(),
            out@ == unrolled(runs@.take(i as int)),
            out@.len() == runs_total(runs@.take(i as int)),
            out@.len() <= n,
        decreases runs@.len() - i,
    {
        let (v, c): (u8, u32) = runs[i];
        let ghost before = out@;
        proof {
            let next = runs@.take(i + 1);
            assert(next.last() == runs@[i as int]);
            assert(next.drop_last() =~= runs@.take(i as int));
        }
        if c as u64 > (n - out.len()) as u64 {
            proof {
                lemma_total_grows(runs@, i + 1);
            }
            return Err(FbError::RleOverflow);
        }
        let mut k: u32 = 0;
        while k < c
            invariant
                k <= c,
                out@ == before + Seq::new(k as nat, |j: int| v),
            decreases c - k,
        {
            out.push(v);
            k += 1;
            assert(out@ =~= before + Seq::new(k as nat, |j: int| v));
        }
        i += 1;
    }
    assert(runs@.take(i as int) =~= runs@);
    if out.len() != n {
        return Err(FbError::RleUnderflow);
    }
    Ok(out)
}

proof fn lemma_total_grows(runs: Seq<(u8, u32)>, k: int)
    requires
        0 <= k <= runs.len(),
    ensures
        runs_total(runs.take(k)) <= runs_total(runs),
    decreases runs.len() - k,
{
    if k < runs.len() {
        lemma_total_grows(runs, k + 1);
        let next = runs.take(k + 1);
        assert(next.drop_last() =~= runs.take(k));
    } else {
        assert(runs.take(k) =~= runs);
    }
}

fn solid(color: &[u8; 3], tail: &Vec<u8>, n: usize) -> (r: Vec<u8>)
    requires
        tail@.len() == n % 3,
    ensures
        r@ == Seq::new(
            n as nat,
            |i: int|
                if i < n / 3 * 3 {
                    component(color_of(*color), i % 3)
                } else {
                    tail@[i - n / 3 * 3]
                },
        ),
{
    let mut out: Vec<u8> = Vec::with_capacity(n);
    let pixels: usize = n / 3;
    let mut p: usize = 0;
    while p < pixels
        invariant
            pixels == n / 3,
            p <= pixels,
            out@.len() == 3 * p,
            forall|k: int|
                0 <= k < 3 * p ==> #[trigger] out@[k] == component(color_of(*color), k % 3),
        decreases pixels - p,
    {
        out.push(color[0]);
        out.push(color[1]);
        out.push(color[2]);
        p += 1;
    }
    let mut k: usize = 0;
    while k < tail.len()
        invariant
            pixels == n / 3,
            tail@.len() == n % 3,
            k <= tail@.len(),
            out@.len() == 3 * pixels + k,
            forall|j: int|
                0 <= j < out@.len() ==> #[trigger] out@[j] == if j < 3 * pixels {
                    component(color_of(*color), j % 3)
                } else {
                    tail@[j - 3 * pixels]
                },
        decreases tail@.len() - k,
    {
        out.push(tail[k]);
        k += 1;
    }
    assert(out@ =~= Seq::new(
        n as nat,
        |i: int|
            if i < n / 3 * 3 { component(color_of(*color), i % 3) } else { tail@[i - n / 3 * 3] },
    ));
    out
}

/// Decodes a buffer of `n` bytes.
pub fn decode(e: &EncodedFb, n: usize) -> (r: Result<Vec<u8>, FbError>)
    ensures
        match r {
            Ok(v) => decoded(e@, n as int) == Ok::<Seq<u8>, FbError>(v@),
            Err(err) => decoded(e@, n as int) == Err::<Seq<u8>, FbError>(err),
        },
{
    match e {
        EncodedFb::Solid { color, tail } => {
            if tail.len() != n % 3 {
                return Err(FbError::SolidTailLength);
            }
            Ok(solid(color, tail, n))
        },
        EncodedFb::Indexed8 { palette, indices, tail } => {
            let wide: Vec<usize> = widen8(indices);
            assert(wide@.map_values(|i: usize| i as int) =~= indices@.map_values(
                |i: u8| i as int,
            ));
            expand(palette, &wide, tail, n)
        },
        EncodedFb::Indexed16 { palette, indices, tail } => {
            let wide: Vec<usize> = widen16(indices);
            assert(wide@.map_values(|i: usize| i as int) =~= indices@.map_values(
                |i: u16| i as int,
            ));
            expand(palette, &wide, tail, n)
        },
        EncodedFb::Rle(runs) => unroll(runs, n),
        EncodedFb::Raw(bytes) => {
            if bytes.len() != n {
                return Err(FbError::RawLength);
            }
            Ok(crate::frames::copied(bytes))
        },
    }
}

} // verus!
