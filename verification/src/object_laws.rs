//! Which objects a line shows, in what order, and what they cost.

use vstd::prelude::*;

use crate::line_objs::LineObjsView;
use crate::mmio::Mmio;
use crate::oam_reader::OamReaderView;
use crate::oam_scan::{oam_sprite, pass_left, snapshot_sprites};
use crate::objects::{
    law_sprites_sorted, sort_sprites, walk_charge, walk_cost, Sprite, SpriteFetchPhase,
};
use crate::state::PpuView;

verus! {

/// The object whose Y is `y` has a row on line `ly`: its first row lies 16 lines
/// above its Y.
pub open spec fn reaches(y: u8, tall: bool, ly: u8) -> bool {
    if tall {
        y <= ly + 16 && ly + 16 < y + 16
    } else {
        y <= ly + 16 && ly + 16 < y + 8
    }
}

/// How many of the first `n` objects in OAM reach line `ly`.
pub open spec fn reaching(buf: Seq<u8>, tall: Seq<bool>, ly: u8, n: int) -> int
    decreases n,
{
    if n <= 0 {
        0
    } else {
        reaching(buf, tall, ly, n - 1) + if reaches(buf[2 * (n - 1)], tall[n - 1], ly) {
            1int
        } else {
            0
        }
    }
}

/// Object `i` is among `found`.
pub open spec fn is_found(found: Seq<Sprite>, i: int) -> bool {
    exists|k: int| 0 <= k < found.len() && (#[trigger] found[k]).oam_index == i
}

/// The line shows the first ten objects in OAM that reach it, and no other.
pub proof fn law_line_shows_the_first_ten(
    m: Mmio,
    reader: OamReaderView,
    tall: Seq<bool>,
    n: int,
)
    requires
        0 <= n <= 40,
    ensures
        ({
            let found = snapshot_sprites(m, reader, tall, n);
            let all = reaching(reader.buf, tall, m.ly, n);
            &&& found.len() == if all < 10 { all } else { 10 }
            &&& forall|i: int|
                0 <= i < n ==> #[trigger] is_found(found, i) == (reaches(
                    reader.buf[2 * i],
                    tall[i],
                    m.ly,
                ) && reaching(reader.buf, tall, m.ly, i) < 10)
            &&& forall|k: int|
                0 <= k < found.len() ==> (#[trigger] found[k]).oam_index < n && found[k].y
                    == reader.buf[2 * found[k].oam_index] && found[k].x == reader.buf[2
                    * found[k].oam_index + 1]
        }),
    decreases n,
{
    if n > 0 {
        law_line_shows_the_first_ten(m, reader, tall, n - 1);
        let prev = snapshot_sprites(m, reader, tall, n - 1);
        let found = snapshot_sprites(m, reader, tall, n);
        assert forall|i: int| 0 <= i < n implies #[trigger] is_found(found, i) == (reaches(
            reader.buf[2 * i],
            tall[i],
            m.ly,
        ) && reaching(reader.buf, tall, m.ly, i) < 10) by {
            if i < n - 1 {
                assert(is_found(prev, i) == (reaches(reader.buf[2 * i], tall[i], m.ly) && reaching(
                    reader.buf,
                    tall,
                    m.ly,
                    i,
                ) < 10));
                if is_found(prev, i) {
                    let k = choose|k: int|
                        0 <= k < prev.len() && (#[trigger] prev[k]).oam_index == i;
                    assert(found[k] == prev[k]);
                }
                if is_found(found, i) {
                    let k = choose|k: int|
                        0 <= k < found.len() && (#[trigger] found[k]).oam_index == i;
                    if k < prev.len() {
                        assert(prev[k] == found[k]);
                    }
                }
            } else {
                if found.len() > prev.len() {
                    assert(found[prev.len() as int].oam_index == i);
                } else {
                    assert(found == prev);
                }
            }
        }
    }
}

/// A found object has the tile number and attribute byte that OAM holds, the
/// third and fourth of its four bytes; the attribute byte's top four bits say
/// what lies in front, how it is mirrored and which palette it takes.
pub proof fn law_found_object_has_its_bytes(
    m: Mmio,
    reader: OamReaderView,
    tall: Seq<bool>,
    n: int,
    k: int,
)
    requires
        0 <= n <= 40,
        0 <= k < snapshot_sprites(m, reader, tall, n).len(),
    ensures
        ({
            let s = snapshot_sprites(m, reader, tall, n)[k];
            let at = 4 * s.oam_index;
            &&& s.oam_index < n
            &&& m.mgb_frozen_tile_attr[s.oam_index as int] is None
                && !reader.ghost_slot[s.oam_index as int] ==> s.tile_index == m.read(
                (0xFE00 + at + 2) as u16,
            ) && s.attributes.raw == m.read((0xFE00 + at + 3) as u16)
            &&& m.mgb_frozen_tile_attr[s.oam_index as int] is None
                && reader.ghost_slot[s.oam_index as int] ==> s.tile_index == m.oam[at + 2]
                && s.attributes.raw == m.oam[at + 3]
            &&& m.mgb_frozen_tile_attr[s.oam_index as int] matches Some(ta) ==> s.tile_index
                == ta.0 && s.attributes.raw == ta.1
            &&& s.attributes.priority == (s.attributes.raw & 0x80 != 0)
            &&& s.attributes.y_flip == (s.attributes.raw & 0x40 != 0)
            &&& s.attributes.x_flip == (s.attributes.raw & 0x20 != 0)
            &&& s.attributes.palette == (s.attributes.raw & 0x10 != 0)
        }),
    decreases n,
{
    if n > 0 {
        let prev = snapshot_sprites(m, reader, tall, n - 1);
        if k < prev.len() {
            law_found_object_has_its_bytes(m, reader, tall, n - 1, k);
        }
    }
}

/// One step of the scan adds the object if it reaches the line and fewer than
/// ten have been added.
pub proof fn law_scan_step_adds_an_object(s: PpuView, m: Mmio, i: int)
    requires
        0 <= i < 40,
    ensures
        ({
            let r = s.check_single_sprite(m, i);
            let y = m.read((0xFE00 + 4 * i) as u16);
            let before = s.line.sprites;
            if before.len() < 10 && reaches(y, s.objs.scan_obj_size_large, m.ly) {
                &&& r.line.sprites.len() == before.len() + 1
                &&& r.line.sprites.take(before.len() as int) == before
                &&& r.line.sprites.last().oam_index == i
                &&& r.line.sprites.last().y == y
                &&& r.line.sprites.last().x == m.read((0xFE00 + 4 * i + 1) as u16)
                &&& r.line.sprites.last().tile_index == m.read((0xFE00 + 4 * i + 2) as u16)
                &&& r.line.sprites.last().attributes.raw == m.read((0xFE00 + 4 * i + 3) as u16)
            } else {
                r == s
            }
        }),
{
    reveal(oam_sprite);
    let r = s.check_single_sprite(m, i);
    if r.line.sprites.len() > s.line.sprites.len() {
        assert(r.line.sprites.take(s.line.sprites.len() as int) =~= s.line.sprites);
    }
}

/// Where objects overlap, the one that comes first in drawing order shows: on
/// DMG the one further left, and of equals the first in OAM; on CGB the first in
/// OAM.
pub proof fn law_drawing_order(cgb: bool, sprites: Seq<Sprite>, i: int, j: int)
    requires
        0 <= i < j < sprites.len(),
    ensures
        ({
            let a = sort_sprites(cgb, sprites)[i];
            let b = sort_sprites(cgb, sprites)[j];
            &&& sprites.to_multiset().contains(a)
            &&& cgb ==> a.oam_index <= b.oam_index
            &&& !cgb ==> a.x < b.x || (a.x == b.x && a.oam_index <= b.oam_index)
        }),
{
    broadcast use vstd::seq_lib::group_to_multiset_ensures;

    law_sprites_sorted(cgb, sprites);
    let sorted = sort_sprites(cgb, sprites);
    assert(sorted.contains(sorted[i]));
    assert(sorted.to_multiset().count(sorted[i]) > 0);
}

/// An object's fetch starts in the column of its first pixel, eight left of its
/// X, or in the first column if that lies further left. It takes eleven dots
/// less those that the background fetch has already spent on the tile, at most
/// five; six behind another object over the same tile; eleven at X 0.
pub proof fn law_object_fetch_starts_in_its_column(s: PpuView, m: Mmio)
    requires
        s.wf(),
    ensures
        s.sprite_fetch_step(m).1 matches Some(p) ==> ({
            let r = s.sprite_fetch_step(m).0;
            let i = r.objs.next_sprite_fetch_index - 1;
            let sx = s.line.sprites[i].x;
            let at = m.scx + if m.cgb_features { s.x } else { sx };
            let spent = if at % 8 < 5 { at % 8 } else { 5 };
            &&& s.objs.next_sprite_fetch_index <= i < s.line.sprites.len()
            &&& if sx < 8 { s.x == 0 } else { s.x + 8 == sx }
            &&& s.lcdc.reg & 0x02 != 0 || m.cgb_features
            &&& p == if sx == 0 {
                11
            } else if s.objs.m3_sprite_prev_tile == 8 * (at / 8) {
                6
            } else {
                11 - spent
            }
            &&& r.objs.m3_sprite_prev_tile == 8 * (at / 8)
            &&& i < s.line.recs.len() ==> r.line.recs[i].phase == SpriteFetchPhase::Fetched
        }),
{
    lemma_pass_left(s.line, s.objs.next_sprite_fetch_index as int, s.x);
}

proof fn lemma_pass_left(line: LineObjsView, idx: int, x: u8)
    requires
        0 <= idx,
    ensures
        ({
            let (l, i) = pass_left(line, idx, x);
            &&& i >= idx
            &&& l.sprites == line.sprites
            &&& l.recs.len() == line.recs.len()
            &&& forall|k: int| idx <= k < i ==> #[trigger] line.trigger_x(k) < x
            &&& 0 <= i < line.sprites.len() ==> line.trigger_x(i) >= x
        }),
    decreases line.sprites.len() - idx,
{
    if 0 <= idx < line.sprites.len() && line.trigger_x(idx) < x {
        let next = LineObjsView { recs: line.given_up(idx).recs, ..line };
        lemma_pass_left(next, idx + 1, x);
        let i = pass_left(line, idx, x).1;
        assert forall|k: int| idx <= k < i implies #[trigger] line.trigger_x(k) < x by {
            if k > idx {
                assert(next.trigger_x(k) < x);
            }
        }
        if 0 <= i < line.sprites.len() {
            assert(next.trigger_x(i) == line.trigger_x(i));
        }
    }
}

/// No object that starts in the current column is left out: if none is fetched,
/// every object still to come starts further on, as long as they stand in order.
pub proof fn law_no_object_is_left_out(s: PpuView, m: Mmio, k: int)
    requires
        s.wf(),
        s.lcdc.reg & 0x02 != 0,
        forall|i: int, j: int|
            0 <= i <= j < s.line.sprites.len() ==> (#[trigger] s.line.sprites[i]).x <= (
            #[trigger] s.line.sprites[j]).x,
        s.sprite_fetch_step(m).1 is None,
        s.objs.next_sprite_fetch_index <= k < s.line.sprites.len(),
        s.line.sprites[k].x >= 8 || s.x == 0,
    ensures
        s.line.sprites[k].x >= 8,
        s.line.sprites[k].x != s.x + 8,
{
    let from = s.objs.next_sprite_fetch_index as int;
    lemma_pass_left(s.line, from, s.x);
    let i = pass_left(s.line, from, s.x).1;
    if k < i {
        assert(s.line.trigger_x(k) < s.x);
    } else {
        assert(s.line.sprites[i].x <= s.line.sprites[k].x);
        assert(s.line.trigger_x(i) > s.x);
    }
}

/// The dots that an object at `x` adds to the line, if it is the first over its
/// tile: eleven, less up to five that the tile's fetch has already spent.
pub open spec fn first_over_tile(x: int, scx: int) -> int {
    let into = (x + scx) % 8;
    if into < 5 { 11 - into } else { 6 }
}

proof fn lemma_charge_grows(
    xs: Seq<i32>,
    x: i32,
    idx: int,
    max: int,
    origin: int,
    prev: int,
)
    requires
        0 <= idx <= xs.len(),
        forall|i: int| 0 <= i < xs.len() ==> #[trigger] xs[i] <= max,
        x <= max,
    ensures
        ({
            let col = (x - origin) / 8;
            let into = (x - origin) % 8;
            let last = if idx == xs.len() { prev } else { (xs.last() - origin) / 8 };
            walk_charge(xs.push(x), idx, max, origin, prev).0 == walk_charge(
                xs,
                idx,
                max,
                origin,
                prev,
            ).0 + if col != last && into < 5 { 11 - into } else { 6 }
        }),
    decreases xs.len() - idx,
{
    let more = xs.push(x);
    if idx < xs.len() {
        assert(more[idx] == xs[idx]);
        lemma_charge_grows(xs, x, idx + 1, max, origin, (xs[idx] - origin) / 8);
    } else {
        assert(more[idx] == x);
        let col = (x - origin) / 8;
        assert(walk_charge(more, idx + 1, max, origin, col).0 == 0);
        assert(walk_charge(xs, idx, max, origin, prev).0 == 0);
    }
}

proof fn lemma_grid(x: int, scx: int)
    requires
        0 <= scx < 8,
        0 <= x,
    ensures
        ({
            let grid = (8 - scx) % 8;
            &&& (x - grid) % 8 == (x + scx) % 8
            &&& (x - grid) / 8 == (x + scx) / 8 - if scx == 0 { 0int } else { 1 }
            &&& (0 - grid) / 8 == if scx == 0 { 0int } else { -1 }
        }),
{
    if scx == 0 {
        assert((8 - scx) % 8 == 0);
    } else {
        assert((8 - scx) % 8 == 8 - scx);
        assert(x - (8 - scx) == (x + scx) - 8);
    }
}

/// On a line without a window one more object, to the right of the others, adds
/// six dots if it lies over the tile of the last one, and otherwise eleven less
/// what the tile's fetch has already spent.
pub proof fn law_one_more_object_costs(xs: Seq<i32>, x: i32, scx: int, nwx: int, target: int)
    requires
        0 <= scx < 8,
        0 <= x <= target,
        nwx >= target,
        forall|i: int| 0 <= i < xs.len() ==> 0 <= #[trigger] xs[i] <= target,
    ensures
        walk_cost(xs.push(x), scx, nwx, target, true) == walk_cost(xs, scx, nwx, target, true)
            + if xs.len() > 0 && (xs.last() + scx) / 8 == (x + scx) / 8 {
            6
        } else {
            first_over_tile(x as int, scx)
        },
{
    let more = xs.push(x);
    let grid = (8 - scx) % 8;
    let seed = (0 - grid) / 8;
    lemma_grid(x as int, scx);
    if xs.len() == 0 {
        assert(more[0] == x);
        assert(more =~= xs.push(x));
        assert(walk_charge(more, 1, target, grid, seed).0 == 0);
        let col = (x - grid) / 8;
        assert(walk_charge(more, 1, target, grid, col).0 == 0);
    } else {
        assert(more[0] == xs[0]);
        lemma_grid(xs[0] as int, scx);
        lemma_grid(xs.last() as int, scx);
        lemma_charge_grows(xs, x, 0, target, grid, seed);
        lemma_charge_grows(xs, x, 1, target, grid, seed);
    }
}

/// Objects that are switched off cost nothing, nor do objects beyond the line's
/// end.
pub proof fn law_hidden_objects_cost_nothing(xs: Seq<i32>, scx: int, nwx: int, target: int)
    requires
        0 <= scx < 8,
    ensures
        walk_cost(xs, scx, nwx, target, false) == 0,
        (xs.len() == 0 || (xs[0] > target && nwx >= target)) ==> walk_cost(
            xs,
            scx,
            nwx,
            target,
            true,
        ) == 0,
{
}

/// Behind the window the tiles count from its start: an object there, alone on
/// the line, adds eleven dots less those into its tile.
pub proof fn law_object_behind_the_window_costs(x: i32, scx: int, nwx: int, target: int)
    requires
        0 <= scx < 8,
        0 <= nwx < x <= target,
    ensures
        ({
            let into = (x - nwx - 1) % 8;
            walk_cost(seq![x], scx, nwx, target, true) == if into < 5 { 11 - into } else { 6 }
        }),
{
    let xs = seq![x];
    let grid = (8 - scx) % 8;
    let seed = (0 - grid) / 8;
    let col = (x - (nwx + 1)) / 8;
    assert(walk_charge(xs, 0, nwx, grid, seed) == (0int, 0int));
    assert(walk_charge(xs, 1, target, nwx + 1, col) == (0int, 1int));
}

/// A fetch is noted with its dot; an object that hangs over the left edge counts
/// from where its first column would have been.
pub proof fn law_fetch_is_noted_with_its_dot(s: PpuView, m: Mmio)
    requires
        s.wf(),
        s.ticks >= 8,
        s.line.recs.len() == s.line.sprites.len(),
    ensures
        s.sprite_fetch_step(m).1 matches Some(p) ==> ({
            let r = s.sprite_fetch_step(m).0;
            let i = r.objs.next_sprite_fetch_index - 1;
            let x = s.line.sprites[i].x;
            &&& r.line.recs[i].arm_tick == s.ticks - if x < 8 { 8 - x } else { 0 }
            &&& r.line.recs[i].penalty == p
            &&& r.objs.m3_last_sprite_commit_tick == s.ticks
        }),
{
    lemma_pass_left(s.line, s.objs.next_sprite_fetch_index as int, s.x);
}

} // verus!
