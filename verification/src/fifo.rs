//! The background pixel FIFO between the fetcher and the pixel mixer.

use vstd::prelude::*;

verus! {

/// One queued background/window pixel.
#[derive(Clone, Copy, Debug, PartialEq, Eq, Structural)]
pub struct BgPixel {
    /// Colour index, 0 to 3.
    pub color: u8,
    /// CGB tile attributes of the tile the pixel came from; 0 on DMG.
    pub attrs: u8,
}

impl Default for BgPixel {
    fn default() -> (r: Self)
        ensures
            r == (BgPixel { color: 0, attrs: 0 }),
    {
        BgPixel { color: 0, attrs: 0 }
    }
}

/// A queue of pixels. Popped pixels stay in `data` before `head` until the
/// queue runs empty, at which point the storage is recycled.
#[derive(Clone)]
pub struct Fifo {
    size: usize,
    head: usize,
    data: Vec<BgPixel>,
}

impl View for Fifo {
    type V = Seq<BgPixel>;

    /// The queued pixels, the next one to leave first.
    closed spec fn view(&self) -> Seq<BgPixel> {
        self.data@.skip(self.head as int)
    }
}

/// `s` with the entries from `at` on replaced by those of `row`, as far as
/// both reach.
pub open spec fn overlay(s: Seq<BgPixel>, at: int, row: Seq<BgPixel>) -> Seq<BgPixel> {
    Seq::new(s.len(), |i: int| if at <= i < at + row.len() { row[i - at] } else { s[i] })
}

impl Fifo {
    /// The bookkeeping agrees with the storage.
    pub closed spec fn wf(&self) -> bool {
        &&& self.head + self.size == self.data@.len()
        &&& self.size == 0 ==> self.head == 0
    }

    pub fn new() -> (r: Self)
        ensures
            r.wf(),
            r@ == Seq::<BgPixel>::empty(),
    {
        let r = Fifo { size: 0, head: 0, data: Vec::new() };
        assert(r@ =~= Seq::<BgPixel>::empty());
        r
    }

    /// A queue of the given pixels, the next one to leave first.
    pub fn from_pixels(pixels: Vec<BgPixel>) -> (r: Self)
        ensures
            r.wf(),
            r@ == pixels@,
    {
        let r = Fifo { size: pixels.len(), head: 0, data: pixels };
        assert(r@ =~= pixels@);
        r
    }

    /// The queued pixels, the next one to leave first.
    pub fn pixels(&self) -> (r: Vec<BgPixel>)
        requires
            self.wf(),
        ensures
            r@ == self@,
    {
        let mut out: Vec<BgPixel> = Vec::new();
        let mut i: usize = self.head;
        while i < self.data.len()
            invariant
                self.wf(),
                self.head <= i <= self.data@.len(),
                out@ == self.data@.subrange(self.head as int, i as int),
            decreases self.data@.len() - i,
        {
            out.push(self.data[i]);
            i += 1;
            assert(out@ =~= self.data@.subrange(self.head as int, i as int));
        }
        assert(out@ =~= self@);
        out
    }

    pub fn reset(&mut self)
        ensures
            final(self).wf(),
            final(self)@ == Seq::<BgPixel>::empty(),
    {
        self.size = 0;
        self.head = 0;
        self.data.clear();
        assert(self@ =~= Seq::<BgPixel>::empty());
    }

    /// Appends a pixel at the end of the queue.
    pub fn push(&mut self, value: BgPixel)
        requires
            old(self).wf(),
        ensures
            final(self).wf(),
            final(self)@ == old(self)@.push(value),
    {
        self.data.push(value);
        assert(self.data.len() <= usize::MAX);
        self.size += 1;
        assert(self@ =~= old(self)@.push(value));
    }

    /// Takes the pixel at the front; an empty queue is an error and stays
    /// as it is.
    pub fn pop(&mut self) -> (r: Result<BgPixel, &'static str>)
        requires
            old(self).wf(),
        ensures
            final(self).wf(),
            r is Err <==> old(self)@.len() == 0,
            r matches Ok(p) ==> p == old(self)@[0] && final(self)@ == old(self)@.skip(1),
            r matches Err(e) ==> e@ == "FIFO is empty"@ && final(self)@ == old(self)@,
    {
        if self.size == 0 {
            return Err("FIFO is empty");
        }
        let value = self.data[self.head];
        assert(self.data.len() <= usize::MAX);
        self.head += 1;
        self.size -= 1;
        if self.head >= self.data.len() {
            self.data.clear();
            self.head = 0;
        }
        assert(self@ =~= old(self)@.skip(1));
        Ok(value)
    }

    /// Number of queued pixels.
    pub fn size(&self) -> (r: usize)
        requires
            self.wf(),
        ensures
            r == self@.len(),
    {
        self.size
    }

    /// Rewrites queued pixels in place from position `at` (0 is the front);
    /// row entries past the end of the queue are dropped.
    pub fn overwrite_at(&mut self, at: usize, row: &[BgPixel; 8])
        requires
            old(self).wf(),
        ensures
            final(self).wf(),
            final(self)@ == overlay(old(self)@, at as int, row@),
    {
        let mut i: usize = 0;
        while i < 8 && at < self.size && i < self.size - at
            invariant
                self.wf(),
                self.head == old(self).head,
                self.size == old(self).size,
                i <= 8,
                self@.len() == old(self)@.len(),
                forall|k: int|
                    0 <= k < self@.len() ==> self@[k] == if at <= k < at + i {
                        row@[k - at]
                    } else {
                        old(self)@[k]
                    },
            decreases 8 - i,
        {
            assert(self.data.len() <= usize::MAX);
            let ghost before = self@;
            let pos: usize = self.head + at + i;
            self.data.set(pos, row[i]);
            assert(self@ =~= before.update(at + i, row@[i as int]));
            i += 1;
        }
        assert(self@ =~= overlay(old(self)@, at as int, row@));
    }

    /// Rewrites the oldest queued pixels.
    pub fn overwrite_oldest(&mut self, row: &[BgPixel; 8])
        requires
            old(self).wf(),
        ensures
            final(self).wf(),
            final(self)@ == overlay(old(self)@, 0, row@),
    {
        self.overwrite_at(0, row);
    }

    /// Rewrites the eight newest queued pixels; a shorter queue is left as
    /// it is.
    pub fn overwrite_newest(&mut self, row: &[BgPixel; 8])
        requires
            old(self).wf(),
        ensures
            final(self).wf(),
            final(self)@ == if old(self)@.len() >= 8 {
                overlay(old(self)@, old(self)@.len() - 8, row@)
            } else {
                old(self)@
            },
    {
        if self.size >= 8 {
            let at: usize = self.size - 8;
            self.overwrite_at(at, row);
        }
    }
}

/// First in, first out: a pixel that is queued behind others does not change
/// which one leaves next, and is still queued behind the rest after that.
pub proof fn law_first_in_first_out(queue: Seq<BgPixel>, p: BgPixel)
    requires
        queue.len() > 0,
    ensures
        queue.push(p)[0] == queue[0],
        queue.push(p).skip(1) == queue.skip(1).push(p),
        Seq::<BgPixel>::empty().push(p)[0] == p,
{
    assert(queue.push(p).skip(1) =~= queue.skip(1).push(p));
}

} // verus!
