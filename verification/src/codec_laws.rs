//! What compact pictures stand for, pixel by pixel.

use vstd::prelude::*;

use crate::fb_rle::{
    decoded, encoded, law_encoded_is_smallest, runs_total, short_runs, unrolled, wire_size,
    EncodedView, FbError,
};
use crate::fb_wire::{law_wire_size_is_exact, le_bytes, wire};

verus! {

/// One colour stands for a picture of that colour; the tail holds what is left
/// of its last pixel.
pub proof fn law_solid_picture(color: (u8, u8, u8), tail: Seq<u8>, n: int, p: int)
    requires
        n >= 0,
    ensures
        ({
            let got = decoded(EncodedView::Solid { color, tail }, n);
            &&& got is Err <==> tail.len() != n % 3
            &&& got matches Err(e) ==> e == FbError::SolidTailLength
            &&& got matches Ok(v) ==> v.len() == n
            &&& got is Ok && 0 <= p < n / 3 ==> got->Ok_0[3 * p] == color.0 && got->Ok_0[3 * p + 1]
                == color.1 && got->Ok_0[3 * p + 2] == color.2
            &&& got is Ok && n / 3 * 3 <= p < n ==> got->Ok_0[p] == tail[p - n / 3 * 3]
        }),
{
    if 0 <= p < n / 3 {
        assert((3 * p) % 3 == 0 && (3 * p + 1) % 3 == 1 && (3 * p + 2) % 3 == 2);
    }
}

/// Each index stands for its colour of the palette.
pub proof fn law_indexed_picture(
    palette: Seq<(u8, u8, u8)>,
    indices: Seq<u8>,
    tail: Seq<u8>,
    n: int,
    p: int,
)
    requires
        0 <= p < indices.len(),
    ensures
        ({
            let got = decoded(EncodedView::Indexed8 { palette, indices, tail }, n);
            let long = 3 * indices.len() + tail.len() != n;
            &&& long ==> got == Err::<Seq<u8>, FbError>(FbError::IndexLength)
            &&& !long && indices[p] >= palette.len() ==> got == Err::<Seq<u8>, FbError>(
                FbError::IndexRange,
            )
            &&& got matches Ok(v) ==> v.len() == n && indices[p] < palette.len() && (v[3 * p], v[3
                * p + 1], v[3 * p + 2]) == palette[indices[p] as int]
            &&& !long && (forall|q: int|
                0 <= q < indices.len() ==> #[trigger] indices[q] < palette.len()) ==> got is Ok
        }),
{
    let wide = indices.map_values(|i: u8| i as int);
    assert(wide[p] == indices[p]);
    assert((3 * p) / 3 == p && (3 * p) % 3 == 0);
    assert((3 * p + 1) / 3 == p && (3 * p + 1) % 3 == 1);
    assert((3 * p + 2) / 3 == p && (3 * p + 2) % 3 == 2);
    if forall|q: int| 0 <= q < indices.len() ==> #[trigger] indices[q] < palette.len() {
        assert forall|q: int| 0 <= q < wide.len() implies 0 <= #[trigger] wide[q]
            < palette.len() by {
            assert(wide[q] == indices[q]);
        }
    }
}

/// The same with two-byte indices.
pub proof fn law_wide_indexed_picture(
    palette: Seq<(u8, u8, u8)>,
    indices: Seq<u16>,
    tail: Seq<u8>,
    n: int,
    p: int,
)
    requires
        0 <= p < indices.len(),
    ensures
        ({
            let got = decoded(EncodedView::Indexed16 { palette, indices, tail }, n);
            let long = 3 * indices.len() + tail.len() != n;
            &&& long ==> got == Err::<Seq<u8>, FbError>(FbError::IndexLength)
            &&& !long && indices[p] >= palette.len() ==> got == Err::<Seq<u8>, FbError>(
                FbError::IndexRange,
            )
            &&& got matches Ok(v) ==> v.len() == n && indices[p] < palette.len() && (v[3 * p], v[3
                * p + 1], v[3 * p + 2]) == palette[indices[p] as int]
        }),
{
    let wide = indices.map_values(|i: u16| i as int);
    assert(wide[p] == indices[p]);
    assert((3 * p) / 3 == p && (3 * p) % 3 == 0);
    assert((3 * p + 1) / 3 == p && (3 * p + 1) % 3 == 1);
    assert((3 * p + 2) / 3 == p && (3 * p + 2) % 3 == 2);
}

proof fn lemma_unrolled_len(runs: Seq<(u8, u32)>)
    ensures
        unrolled(runs).len() == runs_total(runs),
    decreases runs.len(),
{
    if runs.len() > 0 {
        lemma_unrolled_len(runs.drop_last());
    }
}

/// One more run puts its byte behind the others, as often as it says.
pub proof fn law_run_repeats_its_byte(runs: Seq<(u8, u32)>, v: u8, c: u32, n: int, i: int)
    requires
        decoded(EncodedView::Rle(runs), n) is Ok,
    ensures
        ({
            let before = decoded(EncodedView::Rle(runs), n)->Ok_0;
            let got = decoded(EncodedView::Rle(runs.push((v, c))), n + c);
            &&& got is Ok
            &&& got->Ok_0.len() == n + c
            &&& 0 <= i < n ==> got->Ok_0[i] == before[i]
            &&& n <= i < n + c ==> got->Ok_0[i] == v
            &&& decoded(EncodedView::Rle(runs.push((v, c))), n + c + 1) == Err::<
                Seq<u8>,
                FbError,
            >(FbError::RleUnderflow)
            &&& decoded(EncodedView::Rle(runs.push((v, c))), n + c - 1) == Err::<
                Seq<u8>,
                FbError,
            >(FbError::RleOverflow)
        }),
{
    let more = runs.push((v, c));
    assert(more.drop_last() =~= runs);
    lemma_unrolled_len(runs);
}

/// No runs stand for no bytes, and plain bytes for themselves.
pub proof fn law_plain_pictures(bytes: Seq<u8>, n: int)
    ensures
        decoded(EncodedView::Rle(Seq::empty()), 0) == Ok::<Seq<u8>, FbError>(Seq::empty()),
        decoded(EncodedView::Raw(bytes), n) == if n == bytes.len() {
            Ok::<Seq<u8>, FbError>(bytes)
        } else {
            Err(FbError::RawLength)
        },
{
    assert(unrolled(Seq::<(u8, u32)>::empty()) =~= Seq::<u8>::empty());
}

/// What is stored is never longer than the picture itself and the twelve bytes
/// of its head.
pub proof fn law_stored_picture_is_no_longer(buf: Seq<u8>)
    requires
        short_runs(buf),
    ensures
        wire(encoded(buf)).len() <= buf.len() + 12,
        encoded(buf) is Solid ==> wire(encoded(buf)).len() == 15 + buf.len() % 3,
{
    law_wire_size_is_exact(encoded(buf));
    law_encoded_is_smallest(buf);
    assert(wire_size(EncodedView::Raw(buf)) == buf.len() + 12);
}

/// A number of `n` bytes is stored with its lowest byte first.
pub proof fn law_numbers_store_the_low_byte_first(v: nat, n: nat, i: int)
    requires
        0 <= i < n,
    ensures
        le_bytes(v, n).len() == n,
        i == 0 ==> le_bytes(v, n)[i] == v % 256,
        i > 0 ==> le_bytes(v, n)[i] == le_bytes(v / 256, (n - 1) as nat)[i - 1],
    decreases n,
{
    if n > 1 {
        law_numbers_store_the_low_byte_first(v / 256, (n - 1) as nat, 0);
    } else {
        assert(le_bytes(v / 256, 0).len() == 0);
    }
}

/// What is stored starts with the number of its form.
pub proof fn law_stored_form_starts_with_its_number(e: EncodedView, i: int)
    requires
        0 <= i < 4,
    ensures
        wire(e)[i] == if i > 0 {
            0int
        } else {
            match e {
                EncodedView::Solid { .. } => 0,
                EncodedView::Indexed8 { .. } => 1,
                EncodedView::Indexed16 { .. } => 2,
                EncodedView::Rle(..) => 3,
                EncodedView::Raw(..) => 4,
            }
        },
{
    reveal_with_fuel(le_bytes, 5);
    let k: nat = match e {
        EncodedView::Solid { .. } => 0,
        EncodedView::Indexed8 { .. } => 1,
        EncodedView::Indexed16 { .. } => 2,
        EncodedView::Rle(..) => 3,
        EncodedView::Raw(..) => 4,
    };
    law_numbers_store_the_low_byte_first(k, 4, i);
    assert(wire(e)[i] == le_bytes(k, 4)[i]);
}

} // verus!
