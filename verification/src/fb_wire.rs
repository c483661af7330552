//! The bytes that a compact picture is stored as: a four-byte tag, eight-byte
//! lengths, numbers with the low byte first.

use vstd::prelude::*;

use crate::fb_rle::{
    colors_of, component, decoded, encoded, law_codec_round_trip, law_encoded_is_smallest,
    short_runs, wire_size, Color, EncodedFb, EncodedView, FbError, BUFFER_LIMIT,
};

verus! {

/// The low `n` bytes of a number, the lowest first.
pub open spec fn le_bytes(v: nat, n: nat) -> Seq<u8>
    decreases n,
{
    if n == 0 {
        Seq::empty()
    } else {
        seq![(v % 256) as u8] + le_bytes(v / 256, (n - 1) as nat)
    }
}

/// Bytes with their length before them.
pub open spec fn sized(bytes: Seq<u8>) -> Seq<u8> {
    le_bytes(bytes.len(), 8) + bytes
}

/// The bytes of a palette.
pub open spec fn palette_bytes(palette: Seq<Color>) -> Seq<u8> {
    Seq::new(3 * palette.len(), |i: int| component(palette[i / 3], i % 3))
}

/// The bytes of two-byte indices.
pub open spec fn index_bytes(indices: Seq<u16>) -> Seq<u8>
    decreases indices.len(),
{
    if indices.len() == 0 {
        Seq::empty()
    } else {
        index_bytes(indices.drop_last()) + le_bytes(indices.last() as nat, 2)
    }
}

/// The bytes of runs: the value, then the count in four bytes.
pub open spec fn run_bytes(runs: Seq<(u8, u32)>) -> Seq<u8>
    decreases runs.len(),
{
    if runs.len() == 0 {
        Seq::empty()
    } else {
        run_bytes(runs.drop_last()) + seq![runs.last().0] + le_bytes(runs.last().1 as nat, 4)
    }
}

/// A compact picture as it is stored.
pub open spec fn wire(e: EncodedView) -> Seq<u8> {
    match e {
        EncodedView::Solid { color, tail } => le_bytes(0, 4) + seq![color.0, color.1, color.2]
            + sized(tail),
        EncodedView::Indexed8 { palette, indices, tail } => le_bytes(1, 4) + (le_bytes(
            palette.len(),
            8,
        ) + palette_bytes(palette)) + sized(indices) + sized(tail),
        EncodedView::Indexed16 { palette, indices, tail } => le_bytes(2, 4) + (le_bytes(
            palette.len(),
            8,
        ) + palette_bytes(palette)) + (le_bytes(indices.len(), 8) + index_bytes(indices)) + sized(
            tail,
        ),
        EncodedView::Rle(runs) => le_bytes(3, 4) + (le_bytes(runs.len(), 8) + run_bytes(runs)),
        EncodedView::Raw(bytes) => le_bytes(4, 4) + sized(bytes),
    }
}

proof fn lemma_le_len(v: nat, n: nat)
    ensures
        le_bytes(v, n).len() == n,
    decreases n,
{
    if n > 0 {
        lemma_le_len(v / 256, (n - 1) as nat);
    }
}

proof fn lemma_index_bytes_len(s: Seq<u16>)
    ensures
        index_bytes(s).len() == 2 * s.len(),
    decreases s.len(),
{
    if s.len() > 0 {
        lemma_index_bytes_len(s.drop_last());
        lemma_le_len(s.last() as nat, 2);
    }
}

proof fn lemma_run_bytes_len(s: Seq<(u8, u32)>)
    ensures
        run_bytes(s).len() == 5 * s.len(),
    decreases s.len(),
{
    if s.len() > 0 {
        lemma_run_bytes_len(s.drop_last());
        lemma_le_len(s.last().1 as nat, 4);
    }
}

/// The sizes that forms are compared by are their sizes on the wire.
pub proof fn law_wire_size_is_exact(e: EncodedView)
    ensures
        wire(e).len() == wire_size(e),
{
    lemma_le_len(0, 4);
    lemma_le_len(1, 4);
    lemma_le_len(2, 4);
    lemma_le_len(3, 4);
    lemma_le_len(4, 4);
    match e {
        EncodedView::Solid { color: _, tail } => {
            lemma_le_len(tail.len(), 8);
        },
        EncodedView::Indexed8 { palette, indices, tail } => {
            lemma_le_len(palette.len(), 8);
            lemma_le_len(indices.len(), 8);
            lemma_le_len(tail.len(), 8);
        },
        EncodedView::Indexed16 { palette, indices, tail } => {
            lemma_le_len(palette.len(), 8);
            lemma_le_len(indices.len(), 8);
            lemma_le_len(tail.len(), 8);
            lemma_index_bytes_len(indices);
        },
        EncodedView::Rle(runs) => {
            lemma_le_len(runs.len(), 8);
            lemma_run_bytes_len(runs);
        },
        EncodedView::Raw(bytes) => {
            lemma_le_len(bytes.len(), 8);
        },
    }
}

/// Numbers of `n` bytes lie below this.
pub open spec fn byte_limit(n: nat) -> nat
    decreases n,
{
    if n == 0 {
        1
    } else {
        256 * byte_limit((n - 1) as nat)
    }
}

/// Every length in the form fits in its eight bytes.
pub open spec fn storable(e: EncodedView) -> bool {
    match e {
        EncodedView::Solid { color: _, tail } => tail.len() <= u64::MAX,
        EncodedView::Indexed8 { palette, indices, tail } => palette.len() <= u64::MAX
            && indices.len() <= u64::MAX && tail.len() <= u64::MAX,
        EncodedView::Indexed16 { palette, indices, tail } => palette.len() <= u64::MAX
            && indices.len() <= u64::MAX && tail.len() <= u64::MAX,
        EncodedView::Rle(runs) => runs.len() <= u64::MAX,
        EncodedView::Raw(bytes) => bytes.len() <= u64::MAX,
    }
}

proof fn lemma_byte_limits()
    ensures
        byte_limit(2) == 0x1_0000,
        byte_limit(4) == 0x1_0000_0000,
        byte_limit(8) == u64::MAX + 1,
{
    reveal_with_fuel(byte_limit, 9);
}

proof fn lemma_split(a: Seq<u8>, x: Seq<u8>, b: Seq<u8>, y: Seq<u8>)
    requires
        a + x == b + y,
        a.len() == b.len(),
    ensures
        a == b,
        x == y,
{
    assert(a =~= (a + x).take(a.len() as int));
    assert(b =~= (b + y).take(a.len() as int));
    assert(x =~= (a + x).skip(a.len() as int));
    assert(y =~= (b + y).skip(a.len() as int));
}

proof fn lemma_le_determines(v: nat, w: nat, n: nat)
    requires
        v < byte_limit(n),
        w < byte_limit(n),
        le_bytes(v, n) == le_bytes(w, n),
    ensures
        v == w,
    decreases n,
{
    if n > 0 {
        let m = (n - 1) as nat;
        lemma_split(
            seq![(v % 256) as u8],
            le_bytes(v / 256, m),
            seq![(w % 256) as u8],
            le_bytes(w / 256, m),
        );
        assert(seq![(v % 256) as u8][0] == seq![(w % 256) as u8][0]);
        lemma_le_determines(v / 256, w / 256, m);
    }
}

/// A counted part of the bytes, `unit` bytes to an entry, is read off the front.
proof fn lemma_counted(
    n: nat,
    body: Seq<u8>,
    rest: Seq<u8>,
    m: nat,
    other: Seq<u8>,
    left: Seq<u8>,
    unit: nat,
)
    requires
        n <= u64::MAX,
        m <= u64::MAX,
        body.len() == unit * n,
        other.len() == unit * m,
        le_bytes(n, 8) + body + rest == le_bytes(m, 8) + other + left,
    ensures
        n == m,
        body == other,
        rest == left,
{
    lemma_byte_limits();
    lemma_le_len(n, 8);
    lemma_le_len(m, 8);
    assert(le_bytes(n, 8) + body + rest =~= le_bytes(n, 8) + (body + rest));
    assert(le_bytes(m, 8) + other + left =~= le_bytes(m, 8) + (other + left));
    lemma_split(le_bytes(n, 8), body + rest, le_bytes(m, 8), other + left);
    lemma_le_determines(n, m, 8);
    lemma_split(body, rest, other, left);
}

proof fn lemma_palette_determined(a: Seq<Color>, b: Seq<Color>)
    requires
        a.len() == b.len(),
        palette_bytes(a) == palette_bytes(b),
    ensures
        a == b,
{
    assert forall|i: int| 0 <= i < a.len() implies a[i] == b[i] by {
        assert((3 * i) / 3 == i && (3 * i) % 3 == 0);
        assert((3 * i + 1) / 3 == i && (3 * i + 1) % 3 == 1);
        assert((3 * i + 2) / 3 == i && (3 * i + 2) % 3 == 2);
        assert(palette_bytes(a)[3 * i] == a[i].0 && palette_bytes(b)[3 * i] == b[i].0);
        assert(palette_bytes(a)[3 * i + 1] == a[i].1 && palette_bytes(b)[3 * i + 1] == b[i].1);
        assert(palette_bytes(a)[3 * i + 2] == a[i].2 && palette_bytes(b)[3 * i + 2] == b[i].2);
    }
    assert(a =~= b);
}

proof fn lemma_indices_determined(a: Seq<u16>, b: Seq<u16>)
    requires
        a.len() == b.len(),
        index_bytes(a) == index_bytes(b),
    ensures
        a == b,
    decreases a.len(),
{
    if a.len() > 0 {
        lemma_byte_limits();
        lemma_index_bytes_len(a.drop_last());
        lemma_index_bytes_len(b.drop_last());
        lemma_split(
            index_bytes(a.drop_last()),
            le_bytes(a.last() as nat, 2),
            index_bytes(b.drop_last()),
            le_bytes(b.last() as nat, 2),
        );
        lemma_le_determines(a.last() as nat, b.last() as nat, 2);
        lemma_indices_determined(a.drop_last(), b.drop_last());
        assert(a =~= a.drop_last().push(a.last()));
        assert(b =~= b.drop_last().push(b.last()));
    } else {
        assert(a =~= b);
    }
}

proof fn lemma_runs_determined(a: Seq<(u8, u32)>, b: Seq<(u8, u32)>)
    requires
        a.len() == b.len(),
        run_bytes(a) == run_bytes(b),
    ensures
        a == b,
    decreases a.len(),
{
    if a.len() > 0 {
        lemma_byte_limits();
        lemma_run_bytes_len(a.drop_last());
        lemma_run_bytes_len(b.drop_last());
        lemma_split(
            run_bytes(a.drop_last()) + seq![a.last().0],
            le_bytes(a.last().1 as nat, 4),
            run_bytes(b.drop_last()) + seq![b.last().0],
            le_bytes(b.last().1 as nat, 4),
        );
        lemma_split(
            run_bytes(a.drop_last()),
            seq![a.last().0],
            run_bytes(b.drop_last()),
            seq![b.last().0],
        );
        assert(seq![a.last().0][0] == seq![b.last().0][0]);
        lemma_le_determines(a.last().1 as nat, b.last().1 as nat, 4);
        lemma_runs_determined(a.drop_last(), b.drop_last());
        assert(a =~= a.drop_last().push(a.last()));
        assert(b =~= b.drop_last().push(b.last()));
    } else {
        assert(a =~= b);
    }
}

/// The tag that a form is stored with.
pub open spec fn tag_of(e: EncodedView) -> nat {
    match e {
        EncodedView::Solid { .. } => 0,
        EncodedView::Indexed8 { .. } => 1,
        EncodedView::Indexed16 { .. } => 2,
        EncodedView::Rle(_) => 3,
        EncodedView::Raw(_) => 4,
    }
}

/// What follows the tag.
spec fn body_of(e: EncodedView) -> Seq<u8> {
    match e {
        EncodedView::Solid { color, tail } => seq![color.0, color.1, color.2] + (sized(tail)
            + Seq::<u8>::empty()),
        EncodedView::Indexed8 { palette, indices, tail } => le_bytes(palette.len(), 8)
            + palette_bytes(palette) + (sized(indices) + (sized(tail) + Seq::<u8>::empty())),
        EncodedView::Indexed16 { palette, indices, tail } => le_bytes(palette.len(), 8)
            + palette_bytes(palette) + (le_bytes(indices.len(), 8) + index_bytes(indices) + (sized(
            tail,
        ) + Seq::<u8>::empty())),
        EncodedView::Rle(runs) => le_bytes(runs.len(), 8) + run_bytes(runs) + Seq::<u8>::empty(),
        EncodedView::Raw(bytes) => sized(bytes) + Seq::<u8>::empty(),
    }
}

proof fn lemma_tag_first(e: EncodedView)
    ensures
        wire(e) == le_bytes(tag_of(e), 4) + body_of(e),
{
    assert(wire(e) =~= le_bytes(tag_of(e), 4) + body_of(e));
}

proof fn lemma_indexed8_determined(a: EncodedView, b: EncodedView)
    requires
        storable(a),
        storable(b),
        a is Indexed8,
        b is Indexed8,
        body_of(a) == body_of(b),
    ensures
        a == b,
{
    let none = Seq::<u8>::empty();
    if let EncodedView::Indexed8 { palette: p, indices: i, tail: t } = a {
        if let EncodedView::Indexed8 { palette: q, indices: j, tail: u } = b {
            lemma_counted(
                p.len(),
                palette_bytes(p),
                sized(i) + (sized(t) + none),
                q.len(),
                palette_bytes(q),
                sized(j) + (sized(u) + none),
                3,
            );
            lemma_palette_determined(p, q);
            lemma_counted(i.len(), i, sized(t) + none, j.len(), j, sized(u) + none, 1);
            lemma_counted(t.len(), t, none, u.len(), u, none, 1);
        }
    }
}

proof fn lemma_indexed16_determined(a: EncodedView, b: EncodedView)
    requires
        storable(a),
        storable(b),
        a is Indexed16,
        b is Indexed16,
        body_of(a) == body_of(b),
    ensures
        a == b,
{
    let none = Seq::<u8>::empty();
    if let EncodedView::Indexed16 { palette: p, indices: i, tail: t } = a {
        if let EncodedView::Indexed16 { palette: q, indices: j, tail: u } = b {
            lemma_index_bytes_len(i);
            lemma_index_bytes_len(j);
            lemma_counted(
                p.len(),
                palette_bytes(p),
                le_bytes(i.len(), 8) + index_bytes(i) + (sized(t) + none),
                q.len(),
                palette_bytes(q),
                le_bytes(j.len(), 8) + index_bytes(j) + (sized(u) + none),
                3,
            );
            lemma_palette_determined(p, q);
            lemma_counted(
                i.len(),
                index_bytes(i),
                sized(t) + none,
                j.len(),
                index_bytes(j),
                sized(u) + none,
                2,
            );
            lemma_indices_determined(i, j);
            lemma_counted(t.len(), t, none, u.len(), u, none, 1);
        }
    }
}

/// The stored bytes determine the compact form: no two forms are stored alike.
pub proof fn law_wire_determines_the_picture(a: EncodedView, b: EncodedView)
    requires
        storable(a),
        storable(b),
        wire(a) == wire(b),
    ensures
        a == b,
{
    let none = Seq::<u8>::empty();
    lemma_byte_limits();
    lemma_tag_first(a);
    lemma_tag_first(b);
    lemma_le_len(tag_of(a), 4);
    lemma_le_len(tag_of(b), 4);
    lemma_split(le_bytes(tag_of(a), 4), body_of(a), le_bytes(tag_of(b), 4), body_of(b));
    lemma_le_determines(tag_of(a), tag_of(b), 4);
    match (a, b) {
        (
            EncodedView::Solid { color: c, tail: t },
            EncodedView::Solid { color: d, tail: u },
        ) => {
            let x = seq![c.0, c.1, c.2];
            let y = seq![d.0, d.1, d.2];
            lemma_split(x, sized(t) + none, y, sized(u) + none);
            assert(x[0] == y[0] && x[1] == y[1] && x[2] == y[2]);
            lemma_counted(t.len(), t, none, u.len(), u, none, 1);
        },
        (EncodedView::Rle(r), EncodedView::Rle(q)) => {
            lemma_run_bytes_len(r);
            lemma_run_bytes_len(q);
            lemma_counted(r.len(), run_bytes(r), none, q.len(), run_bytes(q), none, 5);
            lemma_runs_determined(r, q);
        },
        (EncodedView::Raw(r), EncodedView::Raw(q)) => {
            lemma_counted(r.len(), r, none, q.len(), q, none, 1);
        },
        (EncodedView::Indexed8 { .. }, EncodedView::Indexed8 { .. }) => {
            lemma_indexed8_determined(a, b);
        },
        (EncodedView::Indexed16 { .. }, EncodedView::Indexed16 { .. }) => {
            lemma_indexed16_determined(a, b);
        },
        _ => {},
    }
}

proof fn lemma_encoded_storable(buf: Seq<u8>)
    requires
        buf.len() <= BUFFER_LIMIT,
    ensures
        storable(encoded(buf)),
{
    law_encoded_is_smallest(buf);
}

/// A buffer comes back from its stored bytes, byte for byte: whatever form they
/// are read as, decoding it gives the buffer.
pub proof fn law_stored_bytes_give_the_buffer_back(buf: Seq<u8>, read: EncodedView)
    requires
        short_runs(buf),
        buf.len() <= BUFFER_LIMIT,
        storable(read),
        wire(read) == wire(encoded(buf)),
    ensures
        decoded(read, buf.len() as int) == Ok::<Seq<u8>, FbError>(buf),
{
    lemma_encoded_storable(buf);
    law_wire_determines_the_picture(read, encoded(buf));
    law_codec_round_trip(buf);
}

/// Buffers of one length that are stored alike are alike.
pub proof fn law_stored_bytes_determine_the_buffer(a: Seq<u8>, b: Seq<u8>)
    requires
        short_runs(a),
        short_runs(b),
        a.len() == b.len(),
        a.len() <= BUFFER_LIMIT,
        wire(encoded(a)) == wire(encoded(b)),
    ensures
        a == b,
{
    lemma_encoded_storable(b);
    law_stored_bytes_give_the_buffer_back(a, encoded(b));
    law_codec_round_trip(b);
}

fn put_le(out: &mut Vec<u8>, v: u64, n: usize)
    requires
        n <= 8,
    ensures
        final(out)@ == old(out)@ + le_bytes(v as nat, n as nat),
{
    let mut rest: u64 = v;
    let mut i: usize = 0;
    while i < n
        invariant
            i <= n,
            out@ + le_bytes(rest as nat, (n - i) as nat) == old(out)@ + le_bytes(
                v as nat,
                n as nat,
            ),
        decreases n - i,
    {
        let ghost before = out@;
        let ghost was = rest;
        out.push((rest % 256) as u8);
        rest = rest / 256;
        i += 1;
        assert(out@ + le_bytes(rest as nat, (n - i) as nat) =~= before + le_bytes(
            was as nat,
            (n - i + 1) as nat,
        ));
    }
    assert(out@ =~= out@ + le_bytes(rest as nat, 0));
}

fn put_bytes(out: &mut Vec<u8>, bytes: &Vec<u8>)
    ensures
        final(out)@ == old(out)@ + bytes@,
{
    let mut i: usize = 0;
    assert(out@ =~= old(out)@ + bytes@.take(0));
    while i < bytes.len()
        invariant
            i <= bytes@.len(),
            out@ == old(out)@ + bytes@.take(i as int),
        decreases bytes@.len() - i,
    {
        out.push(bytes[i]);
        i += 1;
        assert(out@ =~= old(out)@ + bytes@.take(i as int));
    }
    assert(bytes@.take(i as int) =~= bytes@);
}

fn put_sized(out: &mut Vec<u8>, bytes: &Vec<u8>)
    ensures
        final(out)@ == old(out)@ + sized(bytes@),
{
    put_le(out, bytes.len() as u64, 8);
    put_bytes(out, bytes);
    assert(out@ =~= old(out)@ + sized(bytes@));
}

fn put_palette(out: &mut Vec<u8>, palette: &Vec<[u8; 3]>)
    ensures
        final(out)@ == old(out)@ + (le_bytes(palette@.len(), 8) + palette_bytes(
            colors_of(palette@),
        )),
{
    put_le(out, palette.len() as u64, 8);
    let ghost head = out@;
    let ghost want = palette_bytes(colors_of(palette@));
    let mut i: usize = 0;
    while i < palette.len()
        invariant
            i <= palette@.len(),
            want == palette_bytes(colors_of(palette@)),
            out@.len() == head.len() + 3 * i,
            forall|k: int| 0 <= k < head.len() ==> out@[k] == head[k],
            forall|k: int| 0 <= k < 3 * i ==> #[trigger] out@[head.len() + k] == want[k],
        decreases palette@.len() - i,
    {
        let c: [u8; 3] = palette[i];
        let ghost before = out@;
        out.push(c[0]);
        out.push(c[1]);
        out.push(c[2]);
        i += 1;
        assert forall|k: int| 0 <= k < 3 * i implies #[trigger] out@[head.len() + k]
            == want[k] by {
            if k < 3 * (i - 1) {
                assert(out@[head.len() + k] == before[head.len() + k]);
            } else {
                assert(k / 3 == i - 1);
            }
        }
    }
    assert forall|k: int| 0 <= k < out@.len() implies out@[k] == (head + want)[k] by {
        if k >= head.len() {
            assert(out@[head.len() + (k - head.len())] == want[k - head.len()]);
        }
    }
    assert(out@ =~= head + want);
    assert(out@ =~= old(out)@ + (le_bytes(palette@.len(), 8) + want));
}

fn put_indices16(out: &mut Vec<u8>, indices: &Vec<u16>)
    ensures
        final(out)@ == old(out)@ + (le_bytes(indices@.len(), 8) + index_bytes(indices@)),
{
    put_le(out, indices.len() as u64, 8);
    let ghost head = out@;
    let mut i: usize = 0;
    assert(indices@.take(0) =~= Seq::<u16>::empty());
    assert(out@ =~= head + index_bytes(indices@.take(0)));
    while i < indices.len()
        invariant
            i <= indices@.len(),
            out@ == head + index_bytes(indices@.take(i as int)),
        decreases indices@.len() - i,
    {
        proof {
            let next = indices@.take(i + 1);
            assert(next.last() == indices@[i as int]);
            assert(next.drop_last() =~= indices@.take(i as int));
        }
        put_le(out, indices[i] as u64, 2);
        i += 1;
        assert(out@ =~= head + index_bytes(indices@.take(i as int)));
    }
    assert(indices@.take(i as int) =~= indices@);
    assert(out@ =~= old(out)@ + (le_bytes(indices@.len(), 8) + index_bytes(indices@)));
}

fn put_runs(out: &mut Vec<u8>, runs: &Vec<(u8, u32)>)
    ensures
        final(out)@ == old(out)@ + (le_bytes(runs@.len(), 8) + run_bytes(runs@)),
{
    put_le(out, runs.len() as u64, 8);
    let ghost head = out@;
    let mut i: usize = 0;
    assert(runs@.take(0) =~= Seq::<(u8, u32)>::empty());
    assert(out@ =~= head + run_bytes(runs@.take(0)));
    while i < runs.len()
        invariant
            i <= runs@.len(),
            out@ == head + run_bytes(runs@.take(i as int)),
        decreases runs@.len() - i,
    {
        proof {
            let next = runs@.take(i + 1);
            assert(next.last() == runs@[i as int]);
            assert(next.drop_last() =~= runs@.take(i as int));
        }
        let (v, c): (u8, u32) = runs[i];
        out.push(v);
        put_le(out, c as u64, 4);
        i += 1;
        assert(out@ =~= head + run_bytes(runs@.take(i as int)));
    }
    assert(runs@.take(i as int) =~= runs@);
    assert(out@ =~= old(out)@ + (le_bytes(runs@.len(), 8) + run_bytes(runs@)));
}

impl EncodedFb {
    /// The bytes that the picture is stored as.
    pub fn to_wire(&self) -> (r: Vec<u8>)
        ensures
            r@ == wire(self@),
    {
        let mut out: Vec<u8> = Vec::new();
        match self {
            EncodedFb::Solid { color, tail } => {
                put_le(&mut out, 0, 4);
                let ghost head = out@;
                out.push(color[0]);
                out.push(color[1]);
                out.push(color[2]);
                assert(out@ =~= head + seq![color[0], color[1], color[2]]);
                put_sized(&mut out, tail);
            },
            EncodedFb::Indexed8 { palette, indices, tail } => {
                put_le(&mut out, 1, 4);
                put_palette(&mut out, palette);
                put_sized(&mut out, indices);
                put_sized(&mut out, tail);
            },
            EncodedFb::Indexed16 { palette, indices, tail } => {
                put_le(&mut out, 2, 4);
                put_palette(&mut out, palette);
                put_indices16(&mut out, indices);
                put_sized(&mut out, tail);
            },
            EncodedFb::Rle(runs) => {
                put_le(&mut out, 3, 4);
                put_runs(&mut out, runs);
            },
            EncodedFb::Raw(bytes) => {
                put_le(&mut out, 4, 4);
                put_sized(&mut out, bytes);
            },
        }
        assert(out@ =~= wire(self@));
        out
    }
}

} // verus!
