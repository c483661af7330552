//! Objects (sprites): what the line's scan holds of them, and what they cost
//! mode 3.

use vstd::prelude::*;

use crate::arith::{div8, imin, min_i32, mod8};

verus! {

/// The attribute byte of an object, decoded.
#[derive(Clone, Copy, Debug, PartialEq, Eq, Structural)]
pub struct SpriteAttributes {
    /// Background colours 1 to 3 cover the object.
    pub priority: bool,
    pub y_flip: bool,
    pub x_flip: bool,
    /// OBP1 instead of OBP0.
    pub palette: bool,
    pub raw: u8,
}

impl SpriteAttributes {
    #[verifier::allow_in_spec]
    pub fn from_byte(byte: u8) -> Self
        returns
            (SpriteAttributes {
                priority: byte & 0x80 != 0,
                y_flip: byte & 0x40 != 0,
                x_flip: byte & 0x20 != 0,
                palette: byte & 0x10 != 0,
                raw: byte,
            }),
    {
        SpriteAttributes {
            priority: (byte & 0x80) != 0,
            y_flip: (byte & 0x40) != 0,
            x_flip: (byte & 0x20) != 0,
            palette: (byte & 0x10) != 0,
            raw: byte,
        }
    }
}

/// An object on the current line.
#[derive(Clone, Copy, Debug, PartialEq, Eq, Structural)]
pub struct Sprite {
    pub y: u8,
    pub x: u8,
    pub tile_index: u8,
    pub attributes: SpriteAttributes,
    pub oam_index: u8,
}

/// Where an object of the line stands in its fetch.
#[derive(Clone, Copy, Debug, PartialEq, Eq, Structural)]
pub enum SpriteFetchPhase {
    Pending,
    Fetched,
    Aborted,
}

/// The fetch record of an object of the line.
#[derive(Clone, Copy, Debug, PartialEq, Eq, Structural)]
pub struct SpriteFetchRec {
    pub phase: SpriteFetchPhase,
    pub arm_tick: u128,
    pub penalty: u8,
}

impl SpriteFetchRec {
    pub open spec fn pending() -> SpriteFetchRec {
        SpriteFetchRec { phase: SpriteFetchPhase::Pending, arm_tick: 0, penalty: 0 }
    }
}

impl Default for SpriteFetchRec {
    fn default() -> (r: Self)
        ensures
            r == SpriteFetchRec::pending(),
    {
        SpriteFetchRec { phase: SpriteFetchPhase::Pending, arm_tick: 0, penalty: 0 }
    }
}

/// No tile has charged an object yet, in the fetch of mode 3. Tiles are known by
/// their first position there, a multiple of eight, so none is this one.
pub const SPRITE_TILE_NONE: i32 = 1;

/// No tile column has charged an object yet, in the walk that predicts the cost.
/// Columns are counted there, and no object lies far enough left for this one.
pub const SPRITE_COLUMN_NONE: i32 = -0x7FFF_FFFF;

/// The sprite drawing order: objects sort by OAM position on CGB, by X and
/// then OAM position on DMG.
pub open spec fn sprite_key(cgb: bool, s: Sprite) -> int {
    if cgb { s.oam_index as int } else { s.x * 256 + s.oam_index }
}

/// `s` inserted behind the entries whose key is not greater.
pub open spec fn insert_sprite(cgb: bool, sorted: Seq<Sprite>, s: Sprite) -> Seq<Sprite>
    decreases sorted.len(),
{
    if sorted.len() == 0 || sprite_key(cgb, sorted.last()) <= sprite_key(cgb, s) {
        sorted.push(s)
    } else {
        insert_sprite(cgb, sorted.drop_last(), s).push(sorted.last())
    }
}

/// The line's objects in drawing order; equal keys keep their order.
pub open spec fn sort_sprites(cgb: bool, sprites: Seq<Sprite>) -> Seq<Sprite>
    decreases sprites.len(),
{
    if sprites.len() == 0 {
        sprites
    } else {
        insert_sprite(cgb, sort_sprites(cgb, sprites.drop_last()), sprites.last())
    }
}

fn key_of(cgb: bool, s: Sprite) -> (r: u32)
    ensures
        r == sprite_key(cgb, s),
{
    if cgb { s.oam_index as u32 } else { s.x as u32 * 256 + s.oam_index as u32 }
}

proof fn lemma_insert_sprite_len(cgb: bool, sorted: Seq<Sprite>, s: Sprite)
    ensures
        insert_sprite(cgb, sorted, s).len() == sorted.len() + 1,
    decreases sorted.len(),
{
    if sorted.len() == 0 || sprite_key(cgb, sorted.last()) <= sprite_key(cgb, s) {
    } else {
        lemma_insert_sprite_len(cgb, sorted.drop_last(), s);
    }
}

/// Sorting the line's objects loses none and adds none.
pub proof fn lemma_sort_sprites_len(cgb: bool, sprites: Seq<Sprite>)
    ensures
        sort_sprites(cgb, sprites).len() == sprites.len(),
    decreases sprites.len(),
{
    if sprites.len() > 0 {
        lemma_sort_sprites_len(cgb, sprites.drop_last());
        lemma_insert_sprite_len(cgb, sort_sprites(cgb, sprites.drop_last()), sprites.last());
    }
}

/// Inserts `s` into `v` at its place.
fn insert_sprite_exec(cgb: bool, v: &mut Vec<Sprite>, s: Sprite)
    ensures
        final(v)@ == insert_sprite(cgb, old(v)@, s),
{
    let k: u32 = key_of(cgb, s);
    let ghost base = v@;
    let mut at: usize = v.len();
    let ghost mut tail: Seq<Sprite> = base.skip(at as int);
    proof {
        assert(base.take(at as int) =~= base);
        assert(insert_sprite(cgb, base, s) =~= insert_sprite(cgb, base, s) + tail);
    }
    while at > 0 && key_of(cgb, v[at - 1]) > k
        invariant
            at <= base.len(),
            v@ == base,
            k == sprite_key(cgb, s),
            tail == base.skip(at as int),
            insert_sprite(cgb, base, s) == insert_sprite(cgb, base.take(at as int), s) + tail,
        decreases at,
    {
        proof {
            let cur = base.take(at as int);
            assert(cur.last() == base[at - 1]);
            assert(cur.drop_last() =~= base.take(at - 1));
            assert(base.skip(at - 1) =~= seq![base[at - 1]] + tail);
            assert(insert_sprite(cgb, cur, s) + tail =~= insert_sprite(
                cgb,
                base.take(at - 1),
                s,
            ) + base.skip(at - 1));
            tail = base.skip(at - 1);
        }
        at -= 1;
    }
    proof {
        if at == base.len() {
            assert(base.take(at as int) =~= base);
        }
        assert(base.take(at as int).len() == 0 || base.take(at as int).last() == base[at - 1]);
        assert(insert_sprite(cgb, base.take(at as int), s) == base.take(at as int).push(s));
    }
    v.insert(at, s);
    assert(v@ =~= insert_sprite(cgb, base, s));
}

/// Puts the line's objects in drawing order.
pub fn sort_line_sprites(cgb: bool, sprites: &mut Vec<Sprite>)
    ensures
        final(sprites)@ == sort_sprites(cgb, old(sprites)@),
{
    let ghost base = sprites@;
    let mut out: Vec<Sprite> = Vec::new();
    let mut i: usize = 0;
    assert(base.take(0) =~= Seq::<Sprite>::empty());
    while i < sprites.len()
        invariant
            i <= base.len(),
            sprites@ == base,
            out@ == sort_sprites(cgb, base.take(i as int)),
        decreases base.len() - i,
    {
        let s: Sprite = sprites[i];
        insert_sprite_exec(cgb, &mut out, s);
        proof {
            let next = base.take(i + 1);
            assert(next.last() == s);
            assert(next.drop_last() =~= base.take(i as int));
        }
        i += 1;
    }
    assert(base.take(i as int) =~= base);
    *sprites = out;
}

/// The line's objects come out in drawing order.
pub proof fn law_sprites_sorted(cgb: bool, sprites: Seq<Sprite>)
    ensures
        forall|i: int, j: int|
            0 <= i < j < sprites.len() ==> sprite_key(cgb, #[trigger] sort_sprites(cgb, sprites)[i])
                <= sprite_key(cgb, #[trigger] sort_sprites(cgb, sprites)[j]),
        sort_sprites(cgb, sprites).to_multiset() == sprites.to_multiset(),
        sort_sprites(cgb, sprites).len() == sprites.len(),
    decreases sprites.len(),
{
    lemma_sort_sprites_len(cgb, sprites);
    if sprites.len() > 0 {
        let rest = sprites.drop_last();
        law_sprites_sorted(cgb, rest);
        lemma_sort_sprites_len(cgb, rest);
        lemma_insert_sorted(cgb, sort_sprites(cgb, rest), sprites.last());
        broadcast use vstd::seq_lib::group_to_multiset_ensures;
        assert(sprites =~= rest.push(sprites.last()));
    }
}

proof fn lemma_insert_sorted(cgb: bool, sorted: Seq<Sprite>, s: Sprite)
    requires
        forall|i: int, j: int|
            0 <= i < j < sorted.len() ==> sprite_key(cgb, #[trigger] sorted[i]) <= sprite_key(
                cgb,
                #[trigger] sorted[j],
            ),
    ensures
        insert_sprite(cgb, sorted, s).len() == sorted.len() + 1,
        forall|i: int, j: int|
            0 <= i < j <= sorted.len() ==> sprite_key(
                cgb,
                #[trigger] insert_sprite(cgb, sorted, s)[i],
            ) <= sprite_key(cgb, #[trigger] insert_sprite(cgb, sorted, s)[j]),
        insert_sprite(cgb, sorted, s).to_multiset() == sorted.to_multiset().insert(s),
        forall|i: int|
            0 <= i <= sorted.len() ==> (#[trigger] insert_sprite(cgb, sorted, s)[i] == s
                || sorted.contains(insert_sprite(cgb, sorted, s)[i])),
    decreases sorted.len(),
{
    broadcast use vstd::seq_lib::group_to_multiset_ensures;

    let r = insert_sprite(cgb, sorted, s);
    if sorted.len() == 0 || sprite_key(cgb, sorted.last()) <= sprite_key(cgb, s) {
        assert forall|i: int| 0 <= i <= sorted.len() implies (#[trigger] r[i] == s
            || sorted.contains(r[i])) by {
            if i < sorted.len() {
                assert(r[i] == sorted[i]);
            }
        }
    } else {
        let rest = sorted.drop_last();
        lemma_insert_sorted(cgb, rest, s);
        let inner = insert_sprite(cgb, rest, s);
        assert forall|i: int| 0 <= i <= sorted.len() implies (#[trigger] r[i] == s
            || sorted.contains(r[i])) by {
            if i == sorted.len() {
                assert(sorted[sorted.len() - 1] == r[i]);
            } else {
                assert(r[i] == inner[i]);
                if inner[i] != s {
                    let k = choose|k: int| 0 <= k < rest.len() && rest[k] == inner[i];
                    assert(sorted[k] == inner[i]);
                }
            }
        }
        assert forall|i: int, j: int| 0 <= i < j <= sorted.len() implies sprite_key(
            cgb,
            #[trigger] r[i],
        ) <= sprite_key(cgb, #[trigger] r[j]) by {
            assert(r[i] == inner[i]);
            if j == sorted.len() {
                assert(r[j] == sorted.last());
                if inner[i] != s {
                    assert(rest.contains(inner[i]));
                    let k = choose|k: int| 0 <= k < rest.len() && rest[k] == inner[i];
                    assert(sorted[k] == inner[i]);
                    assert(sprite_key(cgb, sorted[k]) <= sprite_key(cgb, sorted[sorted.len() - 1]));
                }
            } else {
                assert(r[j] == inner[j]);
            }
        }
        assert(sorted =~= rest.push(sorted.last()));
        assert(r.to_multiset() =~= sorted.to_multiset().insert(s));
    }
}

/// The cost of the objects from `idx` on whose X is at most `max_spx`, on a
/// tile grid that starts at `origin`, and the index of the first one left.
/// The first object in a tile column waits for the background fetch in its
/// first five dots; every object takes six dots more.
pub open spec fn walk_charge(
    xs: Seq<i32>,
    idx: int,
    max_spx: int,
    origin: int,
    prev_col: int,
) -> (int, int)
    decreases xs.len() - idx,
{
    if 0 <= idx < xs.len() && xs[idx] <= max_spx {
        let col = (xs[idx] - origin) / 8;
        let dist = (xs[idx] - origin) % 8;
        let one = if col != prev_col && dist < 5 { 11 - dist } else { 6 };
        let (rest, end) = walk_charge(xs, idx + 1, max_spx, origin, col);
        (one + rest, end)
    } else {
        (0, idx)
    }
}

/// Whether the leftmost object is fetched while the first tile is still
/// coming in.
pub open spec fn walk_lead(xs: Seq<i32>, scx: int, nwx: int, target_x: int) -> bool {
    imin(scx, 5) + xs[0] < 5 && xs[0] <= nwx && xs[0] <= target_x
}

/// Dots that the objects at `xs` (ascending) add to mode 3 on a line with fine
/// scroll `scx`, whose window starts at `nwx`, up to `target_x`.
pub open spec fn walk_cost(
    xs: Seq<i32>,
    scx: int,
    nwx: int,
    target_x: int,
    obj_enabled: bool,
) -> int {
    if !obj_enabled || xs.len() == 0 {
        0
    } else {
        let grid0 = (8 - scx) % 8;
        let seed = (0 - grid0) / 8;
        let lead = walk_lead(xs, scx, nwx, target_x);
        let c0 = if lead { 11 - (imin(scx, 5) + xs[0]) } else { 0 };
        let i0 = if lead { 1int } else { 0 };
        if nwx < target_x {
            let (c1, i1) = walk_charge(xs, i0, nwx, grid0, seed);
            let (c2, _i2) = walk_charge(xs, i1, target_x, nwx + 1, SPRITE_COLUMN_NONE as int);
            c0 + c1 + c2
        } else {
            c0 + walk_charge(xs, i0, target_x, grid0, seed).0
        }
    }
}

/// Object positions small enough for the walk's arithmetic, few enough for
/// its sum.
pub open spec fn walkable(xs: Seq<i32>) -> bool {
    &&& xs.len() <= 0xFFFF
    &&& forall|i: int| 0 <= i < xs.len() ==> 0 <= #[trigger] xs[i] <= 0xFFFF
}

/// Each object costs at least six dots and at most eleven.
pub proof fn law_object_costs_six_to_eleven(
    xs: Seq<i32>,
    idx: int,
    max_spx: int,
    origin: int,
    prev_col: int,
)
    requires
        0 <= idx <= xs.len(),
    ensures
        ({
            let (cost, end) = walk_charge(xs, idx, max_spx, origin, prev_col);
            &&& idx <= end <= xs.len()
            &&& 6 * (end - idx) <= cost <= 11 * (end - idx)
        }),
    decreases xs.len() - idx,
{
    if 0 <= idx < xs.len() && xs[idx] <= max_spx {
        law_object_costs_six_to_eleven(
            xs,
            idx + 1,
            max_spx,
            origin,
            (xs[idx] - origin) / 8,
        );
    }
}

fn walk_charge_exec(
    xs: &[i32],
    idx: usize,
    max_spx: i32,
    origin: i32,
    seed_col: i32,
) -> (r: (i32, usize))
    requires
        walkable(xs@),
        idx <= xs@.len(),
        0 <= origin <= 0xFFFF,
    ensures
        (r.0 as int, r.1 as int) == walk_charge(
            xs@,
            idx as int,
            max_spx as int,
            origin as int,
            seed_col as int,
        ),
{
    let mut cost: i32 = 0;
    let mut i: usize = idx;
    let mut prev_col: i32 = seed_col;
    while i < xs.len() && xs[i] <= max_spx
        invariant
            walkable(xs@),
            idx <= i <= xs@.len(),
            0 <= origin <= 0xFFFF,
            0 <= cost <= 11 * (i - idx),
            ({
                let (all, end) = walk_charge(
                    xs@,
                    idx as int,
                    max_spx as int,
                    origin as int,
                    seed_col as int,
                );
                let (rest, end_i) = walk_charge(
                    xs@,
                    i as int,
                    max_spx as int,
                    origin as int,
                    prev_col as int,
                );
                all == cost + rest && end == end_i
            }),
        decreases xs@.len() - i,
    {
        let spx: i32 = xs[i];
        let col: i32 = div8(spx - origin);
        let dist: i32 = mod8(spx - origin);
        if col != prev_col && dist < 5 {
            cost += 6 + (5 - dist);
        } else {
            cost += 6;
        }
        prev_col = col;
        i += 1;
    }
    (cost, i)
}

pub fn sprite_tile_walk_cost(
    sprite_xs: &[i32],
    scx: i32,
    nwx: i32,
    target_x: i32,
    obj_enabled: bool,
) -> (r: i32)
    requires
        walkable(sprite_xs@),
        0 <= scx < 8,
        -1 <= nwx < 0xFFFF,
    ensures
        r == walk_cost(sprite_xs@, scx as int, nwx as int, target_x as int, obj_enabled),
        0 <= r <= 11 * sprite_xs@.len(),
{
    if !obj_enabled || sprite_xs.len() == 0 {
        return 0;
    }
    let grid0: i32 = mod8(8 - scx);
    let discard: i32 = min_i32(scx, 5);
    let lead: i32 = sprite_xs[0];
    let mut cost: i32 = 0;
    let mut idx: usize = 0;
    if discard + lead < 5 && lead <= nwx && lead <= target_x {
        cost += 6 + (5 - (discard + lead));
        idx += 1;
    }
    let ghost i0 = idx as int;
    let bg_seed: i32 = div8(0 - grid0);
    if nwx < target_x {
        let (c1, i1): (i32, usize) = walk_charge_exec(sprite_xs, idx, nwx, grid0, bg_seed);
        proof {
            law_object_costs_six_to_eleven(
                sprite_xs@,
                i0,
                nwx as int,
                grid0 as int,
                bg_seed as int,
            );
            law_object_costs_six_to_eleven(
                sprite_xs@,
                i1 as int,
                target_x as int,
                nwx + 1,
                SPRITE_COLUMN_NONE as int,
            );
        }
        let (c2, _i2): (i32, usize) = walk_charge_exec(
            sprite_xs,
            i1,
            target_x,
            nwx + 1,
            SPRITE_COLUMN_NONE,
        );
        cost + c1 + c2
    } else {
        let (c1, _i1): (i32, usize) = walk_charge_exec(sprite_xs, idx, target_x, grid0, bg_seed);
        proof {
            law_object_costs_six_to_eleven(
                sprite_xs@,
                i0,
                target_x as int,
                grid0 as int,
                bg_seed as int,
            );
        }
        cost + c1
    }
}

/// Behind a window no column is charged yet: the first object there waits for
/// the tile fetch wherever in its column's first five dots it lies.
pub proof fn law_first_object_behind_window_leads(xs: Seq<i32>, idx: int, target_x: int, nwx: int)
    requires
        0 <= idx < xs.len(),
        xs[idx] <= target_x,
        -1 <= nwx < 0xFFFF,
    ensures
        ({
            let dist = (xs[idx] - (nwx + 1)) % 8;
            let col = (xs[idx] - (nwx + 1)) / 8;
            walk_charge(xs, idx, target_x, nwx + 1, SPRITE_COLUMN_NONE as int).0 == (if dist < 5 {
                11 - dist
            } else {
                6
            }) + walk_charge(xs, idx + 1, target_x, nwx + 1, col).0
        }),
{
}

/// With objects off, or none on the line, mode 3 is not lengthened; otherwise
/// by at most eleven dots an object.
pub proof fn law_walk_cost_bounds(
    xs: Seq<i32>,
    scx: int,
    nwx: int,
    target_x: int,
    obj_enabled: bool,
)
    requires
        0 <= scx < 8,
        forall|i: int| 0 <= i < xs.len() ==> 0 <= #[trigger] xs[i],
    ensures
        0 <= walk_cost(xs, scx, nwx, target_x, obj_enabled) <= 11 * xs.len(),
        !obj_enabled || xs.len() == 0 ==> walk_cost(xs, scx, nwx, target_x, obj_enabled) == 0,
{
    if obj_enabled && xs.len() > 0 {
        let grid0 = (8 - scx) % 8;
        let seed = (0 - grid0) / 8;
        let i0 = if walk_lead(xs, scx, nwx, target_x) { 1int } else { 0 };
        if nwx < target_x {
            law_object_costs_six_to_eleven(xs, i0, nwx, grid0, seed);
            let i1 = walk_charge(xs, i0, nwx, grid0, seed).1;
            law_object_costs_six_to_eleven(xs, i1, target_x, nwx + 1, SPRITE_COLUMN_NONE as int);
        } else {
            law_object_costs_six_to_eleven(xs, i0, target_x, grid0, seed);
        }
    }
}

/// Ascending order.
pub open spec fn ascending(xs: Seq<i32>) -> Seq<i32> {
    xs.sort_by(|a: i32, b: i32| a <= b)
}

/// Sorts positions in ascending order.
pub fn sort_positions(xs: &mut Vec<i32>)
    ensures
        final(xs)@ == ascending(old(xs)@),
        final(xs)@.len() == old(xs)@.len(),
        forall|i: int|
            0 <= i < final(xs)@.len() ==> old(xs)@.contains(#[trigger] final(xs)@[i]),
{
    broadcast use vstd::seq_lib::group_to_multiset_ensures;

    let ghost base = xs@;
    let n: usize = xs.len();
    let mut i: usize = 0;
    while i < n
        invariant
            n == xs@.len(),
            n == base.len(),
            i <= n,
            xs@.to_multiset() == base.to_multiset(),
            forall|a: int, b: int| 0 <= a < b < i ==> xs@[a] <= xs@[b],
        decreases n - i,
    {
        let mut j: usize = i;
        while j > 0 && xs[j - 1] > xs[j]
            invariant
                n == xs@.len(),
                j <= i < n,
                xs@.to_multiset() == base.to_multiset(),
                forall|a: int, b: int| 0 <= a < b <= i && b != j ==> xs@[a] <= xs@[b],
            decreases j,
        {
            let ghost before = xs@;
            let hi: i32 = xs[j - 1];
            let lo: i32 = xs[j];
            xs.set(j - 1, lo);
            xs.set(j, hi);
            proof {
                let first = before.update(j - 1, lo);
                vstd::seq_lib::to_multiset_update(before, j - 1, lo);
                vstd::seq_lib::to_multiset_update(first, j as int, hi);
                assert(xs@ =~= first.update(j as int, hi));
                assert(before.to_multiset().contains(hi)) by {
                    assert(before[j - 1] == hi);
                    before.to_multiset_ensures();
                }
                assert(xs@.to_multiset() =~= before.to_multiset());
            }
            j -= 1;
        }
        i += 1;
    }
    proof {
        let leq = |a: i32, b: i32| a <= b;
        base.lemma_sort_by_ensures(leq);
        let sorted = base.sort_by(leq);
        assert(sorted.to_multiset() == xs@.to_multiset());
        vstd::seq_lib::lemma_sorted_unique(xs@, sorted, leq);
        xs@.to_multiset_ensures();
        base.to_multiset_ensures();
        assert forall|k: int| 0 <= k < xs@.len() implies base.contains(#[trigger] xs@[k]) by {
            assert(xs@.contains(xs@[k]));
            assert(xs@.to_multiset().count(xs@[k]) > 0);
        }
    }
}

} // verus!
