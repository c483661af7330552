//! The objects of the current line, and how far their fetches have come.

use vstd::prelude::*;

use crate::oam_reader::flags40;
use crate::objects::{
    ascending, lemma_sort_sprites_len, sort_line_sprites, sort_positions, sort_sprites, walkable,
    Sprite, SpriteFetchPhase, SpriteFetchRec,
};
use crate::regs::CLOCK_LIMIT;

verus! {

/// The line's objects in fetch order, a fetch record for each, and the object
/// height that each OAM slot was scanned with.
#[derive(Clone)]
pub struct LineObjs {
    sprites: Vec<Sprite>,
    recs: Vec<SpriteFetchRec>,
    slot_large: [bool; 40],
}

/// What a `LineObjs` holds.
#[verifier::ext_equal]
pub struct LineObjsView {
    pub sprites: Seq<Sprite>,
    pub recs: Seq<SpriteFetchRec>,
    pub slot_large: Seq<bool>,
}

/// The X positions of some objects.
pub open spec fn sprite_xs(sprites: Seq<Sprite>) -> Seq<i32> {
    Seq::new(sprites.len(), |i: int| sprites[i].x as i32)
}

/// An object with X in the given range is among `sprites`.
pub open spec fn has_x_within(sprites: Seq<Sprite>, lo: int, hi: int) -> bool {
    exists|i: int| 0 <= i < sprites.len() && lo <= (#[trigger] sprites[i]).x <= hi
}

/// The smallest X up to 16, if any.
pub open spec fn leftmost_upto16(sprites: Seq<Sprite>) -> Option<u8>
    decreases sprites.len(),
{
    if sprites.len() == 0 {
        None
    } else {
        let x = sprites.last().x;
        match leftmost_upto16(sprites.drop_last()) {
            Some(v) if v <= x => Some(v),
            r => if x <= 16 { Some(x) } else { r },
        }
    }
}

impl LineObjsView {
    pub open spec fn empty() -> LineObjsView {
        LineObjsView { sprites: Seq::empty(), recs: Seq::empty(), slot_large: flags40(false) }
    }

    pub open spec fn wf(self) -> bool {
        &&& self.sprites.len() <= 10
        &&& self.slot_large.len() == 40
        &&& forall|i: int|
            0 <= i < self.recs.len() ==> (#[trigger] self.recs[i]).arm_tick < CLOCK_LIMIT
    }

    pub open spec fn rec(self, i: int) -> Option<SpriteFetchRec> {
        if 0 <= i < self.recs.len() { Some(self.recs[i]) } else { None }
    }

    pub open spec fn with_rec(self, i: int, rec: SpriteFetchRec) -> LineObjsView {
        if 0 <= i < self.recs.len() {
            LineObjsView { recs: self.recs.update(i, rec), ..self }
        } else {
            self
        }
    }

    /// The column at which object `i` has to be fetched.
    pub open spec fn trigger_x(self, i: int) -> int {
        let x = self.sprites[i].x;
        if x < 8 { 0 } else { x - 8 }
    }

    /// The record of object `i` once drawing has passed it.
    pub open spec fn given_up(self, i: int) -> LineObjsView {
        match self.rec(i) {
            Some(r) if r.phase == SpriteFetchPhase::Pending => self.with_rec(
                i,
                SpriteFetchRec { phase: SpriteFetchPhase::Aborted, ..r },
            ),
            _ => self,
        }
    }
}

impl View for LineObjs {
    type V = LineObjsView;

    closed spec fn view(&self) -> LineObjsView {
        LineObjsView { sprites: self.sprites@, recs: self.recs@, slot_large: self.slot_large@ }
    }
}

impl LineObjs {
    pub fn new() -> (r: Self)
        ensures
            r@ == LineObjsView::empty(),
            r@.wf(),
    {
        let r = LineObjs { sprites: Vec::new(), recs: Vec::new(), slot_large: [false; 40] };
        assert(r@ =~= LineObjsView::empty());
        r
    }

    pub fn count(&self) -> (r: usize)
        ensures
            r == self@.sprites.len(),
    {
        self.sprites.len()
    }

    pub fn sprite(&self, i: usize) -> (r: Sprite)
        requires
            i < self@.sprites.len(),
        ensures
            r == self@.sprites[i as int],
    {
        self.sprites[i]
    }

    pub fn rec(&self, i: usize) -> (r: Option<SpriteFetchRec>)
        ensures
            r == self@.rec(i as int),
    {
        if i < self.recs.len() { Some(self.recs[i]) } else { None }
    }

    pub fn slot_large(&self, i: usize) -> (r: bool)
        requires
            i < 40,
        ensures
            r == self@.slot_large[i as int],
    {
        self.slot_large[i]
    }

    pub fn trigger_x(&self, i: usize) -> (r: u8)
        requires
            i < self@.sprites.len(),
        ensures
            r == self@.trigger_x(i as int),
    {
        let x: u8 = self.sprites[i].x;
        if x < 8 { 0 } else { x - 8 }
    }

    /// X positions in ascending order.
    pub fn sorted_xs(&self) -> (r: Vec<i32>)
        requires
            self@.wf(),
        ensures
            r@ == ascending(sprite_xs(self@.sprites)),
            r@.len() == self@.sprites.len(),
            walkable(r@),
    {
        let mut xs: Vec<i32> = Vec::new();
        let mut i: usize = 0;
        while i < self.sprites.len()
            invariant
                i <= self.sprites@.len(),
                xs@ == sprite_xs(self.sprites@.take(i as int)),
            decreases self.sprites@.len() - i,
        {
            xs.push(self.sprites[i].x as i32);
            i += 1;
            assert(xs@ =~= sprite_xs(self.sprites@.take(i as int)));
        }
        assert(self.sprites@.take(i as int) =~= self.sprites@);
        sort_xs(&mut xs, Ghost(self.sprites@));
        xs
    }

    /// X positions, from object `from` on, in ascending order.
    pub fn sorted_xs_from(&self, from: usize) -> (r: Vec<i32>)
        requires
            self@.wf(),
            from <= self@.sprites.len(),
        ensures
            r@ == ascending(sprite_xs(self@.sprites.skip(from as int))),
            r@.len() == self@.sprites.len() - from,
            walkable(r@),
    {
        let mut xs: Vec<i32> = Vec::new();
        let mut i: usize = from;
        while i < self.sprites.len()
            invariant
                from <= i <= self.sprites@.len(),
                xs@ == sprite_xs(self.sprites@.subrange(from as int, i as int)),
            decreases self.sprites@.len() - i,
        {
            xs.push(self.sprites[i].x as i32);
            i += 1;
            assert(xs@ =~= sprite_xs(self.sprites@.subrange(from as int, i as int)));
        }
        assert(self.sprites@.subrange(from as int, i as int) =~= self.sprites@.skip(from as int));
        sort_xs(&mut xs, Ghost(self.sprites@.skip(from as int)));
        xs
    }

    /// X positions right of `cutoff` in ascending order.
    pub fn sorted_xs_beyond(&self, cutoff: i32) -> (r: Vec<i32>)
        requires
            self@.wf(),
        ensures
            r@ == ascending(
                sprite_xs(self@.sprites.filter(|s: Sprite| s.x as i32 > cutoff)),
            ),
            r@.len() <= self@.sprites.len(),
            walkable(r@),
    {
        let mut xs: Vec<i32> = Vec::new();
        let mut i: usize = 0;
        let ghost keep = |s: Sprite| s.x as i32 > cutoff;
        reveal(Seq::filter);
        while i < self.sprites.len()
            invariant
                i <= self.sprites@.len(),
                keep == (|s: Sprite| s.x as i32 > cutoff),
                xs@ == sprite_xs(self.sprites@.take(i as int).filter(keep)),
                xs@.len() <= i,
            decreases self.sprites@.len() - i,
        {
            let x: i32 = self.sprites[i].x as i32;
            if x > cutoff {
                xs.push(x);
            }
            proof {
                let next = self.sprites@.take(i + 1);
                assert(next.last() == self.sprites@[i as int]);
                assert(next.drop_last() =~= self.sprites@.take(i as int));
                reveal(Seq::filter);
                assert(xs@ =~= sprite_xs(next.filter(keep)));
            }
            i += 1;
        }
        assert(self.sprites@.take(i as int) =~= self.sprites@);
        sort_xs(&mut xs, Ghost(self.sprites@.filter(keep)));
        xs
    }

    /// Whether an object's X lies between `lo` and `hi`.
    pub fn has_x_within(&self, lo: u8, hi: u8) -> (r: bool)
        ensures
            r == has_x_within(self@.sprites, lo as int, hi as int),
    {
        let mut i: usize = 0;
        while i < self.sprites.len()
            invariant
                i <= self.sprites@.len(),
                forall|k: int|
                    0 <= k < i ==> !(lo <= (#[trigger] self.sprites@[k]).x && self.sprites@[k].x
                        <= hi),
            decreases self.sprites@.len() - i,
        {
            let x: u8 = self.sprites[i].x;
            if lo <= x && x <= hi {
                assert(self@.sprites[i as int].x == x);
                return true;
            }
            i += 1;
        }
        false
    }

    pub fn leftmost_upto16(&self) -> (r: Option<u8>)
        ensures
            r == leftmost_upto16(self@.sprites),
    {
        let mut best: Option<u8> = None;
        let mut i: usize = 0;
        assert(self.sprites@.take(0) =~= Seq::<Sprite>::empty());
        while i < self.sprites.len()
            invariant
                i <= self.sprites@.len(),
                best == leftmost_upto16(self.sprites@.take(i as int)),
            decreases self.sprites@.len() - i,
        {
            let x: u8 = self.sprites[i].x;
            proof {
                let next = self.sprites@.take(i + 1);
                assert(next.last() == self.sprites@[i as int]);
                assert(next.drop_last() =~= self.sprites@.take(i as int));
            }
            match best {
                Some(v) if v <= x => {},
                _ => {
                    if x <= 16 {
                        best = Some(x);
                    }
                },
            }
            i += 1;
        }
        assert(self.sprites@.take(i as int) =~= self.sprites@);
        best
    }

    pub fn push(&mut self, s: Sprite)
        ensures
            final(self)@ == (LineObjsView { sprites: old(self)@.sprites.push(s), ..old(self)@ }),
    {
        self.sprites.push(s);
    }

    pub fn set_sprites(&mut self, sprites: Vec<Sprite>)
        ensures
            final(self)@ == (LineObjsView { sprites: sprites@, ..old(self)@ }),
    {
        self.sprites = sprites;
    }

    pub fn clear(&mut self)
        ensures
            final(self)@ == (LineObjsView { sprites: Seq::empty(), ..old(self)@ }),
    {
        self.sprites.clear();
        assert(self.sprites@ =~= Seq::empty());
    }

    pub fn clear_recs(&mut self)
        ensures
            final(self)@ == (LineObjsView { recs: Seq::empty(), ..old(self)@ }),
    {
        self.recs.clear();
        assert(self.recs@ =~= Seq::empty());
    }

    /// A fresh record for every object.
    pub fn reset_recs(&mut self)
        ensures
            final(self)@ == (LineObjsView {
                recs: Seq::new(old(self)@.sprites.len(), |i: int| SpriteFetchRec::pending()),
                ..old(self)@
            }),
    {
        let mut recs: Vec<SpriteFetchRec> = Vec::new();
        let mut i: usize = 0;
        while i < self.sprites.len()
            invariant
                i <= self.sprites@.len(),
                recs@ == Seq::new(i as nat, |k: int| SpriteFetchRec::pending()),
            decreases self.sprites@.len() - i,
        {
            recs.push(SpriteFetchRec::default());
            i += 1;
            assert(recs@ =~= Seq::new(i as nat, |k: int| SpriteFetchRec::pending()));
        }
        self.recs = recs;
    }

    pub fn set_rec(&mut self, i: usize, rec: SpriteFetchRec)
        ensures
            final(self)@ == old(self)@.with_rec(i as int, rec),
    {
        if i < self.recs.len() {
            self.recs.set(i, rec);
        }
    }

    pub fn set_slot_large(&mut self, i: usize, large: bool)
        requires
            i < 40,
        ensures
            final(self)@ == (LineObjsView {
                slot_large: old(self)@.slot_large.update(i as int, large),
                ..old(self)@
            }),
    {
        self.slot_large[i] = large;
    }

    /// Puts the objects in fetch order.
    pub fn sort(&mut self, cgb: bool)
        ensures
            final(self)@ == (LineObjsView {
                sprites: sort_sprites(cgb, old(self)@.sprites),
                ..old(self)@
            }),
            final(self)@.sprites.len() == old(self)@.sprites.len(),
    {
        proof {
            lemma_sort_sprites_len(cgb, self.sprites@);
        }
        sort_line_sprites(cgb, &mut self.sprites);
    }

    /// Drawing has passed object `i`.
    pub fn give_up(&mut self, i: usize)
        ensures
            final(self)@ == old(self)@.given_up(i as int),
            final(self)@.sprites == old(self)@.sprites,
            old(self)@.wf() ==> final(self)@.wf(),
    {
        if i < self.recs.len() {
            let rec: SpriteFetchRec = self.recs[i];
            if rec.phase == SpriteFetchPhase::Pending {
                self.recs.set(i, SpriteFetchRec { phase: SpriteFetchPhase::Aborted, ..rec });
            }
        }
    }
}

/// Sorts the X positions of `sprites`.
fn sort_xs(xs: &mut Vec<i32>, sprites: Ghost<Seq<Sprite>>)
    requires
        old(xs)@ == sprite_xs(sprites@),
        old(xs)@.len() <= 10,
    ensures
        final(xs)@ == ascending(sprite_xs(sprites@)),
        final(xs)@.len() == sprites@.len(),
        walkable(final(xs)@),
{
    let ghost unsorted = xs@;
    sort_positions(xs);
    assert forall|k: int| 0 <= k < xs@.len() implies 0 <= #[trigger] xs@[k] <= 0xFFFF by {
        assert(unsorted.contains(xs@[k]));
        let j = choose|j: int| 0 <= j < unsorted.len() && unsorted[j] == xs@[k];
        assert(unsorted[j] == sprites@[j].x as i32);
    }
}


/// The line's objects in their parts.
pub struct LineObjsParts {
    pub sprites: Vec<Sprite>,
    pub recs: Vec<SpriteFetchRec>,
    pub slot_large: [bool; 40],
}

impl View for LineObjsParts {
    type V = LineObjsView;

    open spec fn view(&self) -> LineObjsView {
        LineObjsView {
            sprites: self.sprites@,
            recs: self.recs@,
            slot_large: self.slot_large@,
        }
    }
}

impl LineObjs {
    /// Takes the value apart.
    pub fn into_parts(self) -> (r: LineObjsParts)
        ensures
            r@ == self@,
    {
        LineObjsParts {
            sprites: self.sprites,
            recs: self.recs,
            slot_large: self.slot_large,
        }
    }

    /// Puts the value together again.
    pub fn from_parts(parts: LineObjsParts) -> (r: Self)
        ensures
            r@ == parts@,
    {
        LineObjs {
            sprites: parts.sprites,
            recs: parts.recs,
            slot_large: parts.slot_large,
        }
    }

    pub fn is_well_formed(&self) -> (r: bool)
        ensures
            r == self@.wf(),
    {
        let mut i: usize = 0;
        while i < self.recs.len()
            invariant
                i <= self.recs@.len(),
                forall|k: int| 0 <= k < i ==> (#[trigger] self.recs@[k]).arm_tick < CLOCK_LIMIT,
            decreases self.recs@.len() - i,
        {
            if self.recs[i].arm_tick >= CLOCK_LIMIT as u128 {
                assert(self@.recs[i as int].arm_tick >= CLOCK_LIMIT);
                return false;
            }
            i += 1;
        }
        self.sprites.len() <= 10
    }
}

} // verus!
