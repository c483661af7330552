//! Histories of register values along a line: pairs of a position and the
//! value that holds from there on.

use vstd::prelude::*;

verus! {

/// How many entries from `n` on have been reached at column `at`.
pub open spec fn col_reached<V>(hist: Seq<(u64, V)>, at: u64, n: int) -> int
    decreases hist.len() - n,
{
    if 0 <= n < hist.len() && hist[n].0 <= at {
        col_reached(hist, at, n + 1)
    } else {
        n
    }
}

/// The value in force at column `at`: that of the last entry reached, the
/// first one before any is reached, `fallback` without entries.
pub open spec fn col_value<V>(hist: Seq<(u64, V)>, at: u64, fallback: V) -> V {
    let n = col_reached(hist, at, 0);
    if hist.len() == 0 {
        fallback
    } else if n == 0 {
        hist[0].1
    } else {
        hist[n - 1].1
    }
}

/// The same for a history by dot.
pub open spec fn dot_reached<V>(hist: Seq<(u128, V)>, at: u128, n: int) -> int
    decreases hist.len() - n,
{
    if 0 <= n < hist.len() && hist[n].0 <= at {
        dot_reached(hist, at, n + 1)
    } else {
        n
    }
}

pub open spec fn dot_value<V>(hist: Seq<(u128, V)>, at: u128, fallback: V) -> V {
    let n = dot_reached(hist, at, 0);
    if hist.len() == 0 {
        fallback
    } else if n == 0 {
        hist[0].1
    } else {
        hist[n - 1].1
    }
}

pub fn value_at_col<V: Copy>(hist: &[(u64, V)], at: u64, fallback: V) -> (r: V)
    ensures
        r == col_value(hist@, at, fallback),
{
    if hist.len() == 0 {
        return fallback;
    }
    let mut val: V = hist[0].1;
    let mut i: usize = 0;
    while i < hist.len() && hist[i].0 <= at
        invariant
            hist@.len() > 0,
            i <= hist@.len(),
            col_reached(hist@, at, 0) == col_reached(hist@, at, i as int),
            val == if i == 0 { hist@[0].1 } else { hist@[i - 1].1 },
        decreases hist@.len() - i,
    {
        val = hist[i].1;
        i += 1;
    }
    val
}

pub fn value_at_dot<V: Copy>(hist: &[(u128, V)], at: u128, fallback: V) -> (r: V)
    ensures
        r == dot_value(hist@, at, fallback),
{
    if hist.len() == 0 {
        return fallback;
    }
    let mut val: V = hist[0].1;
    let mut i: usize = 0;
    while i < hist.len() && hist[i].0 <= at
        invariant
            hist@.len() > 0,
            i <= hist@.len(),
            dot_reached(hist@, at, 0) == dot_reached(hist@, at, i as int),
            val == if i == 0 { hist@[0].1 } else { hist@[i - 1].1 },
        decreases hist@.len() - i,
    {
        val = hist[i].1;
        i += 1;
    }
    val
}

/// The registers that a line's histories follow, at the start of the line.
#[derive(Clone, Copy, Debug, PartialEq, Eq, Structural)]
pub struct HistSeed {
    pub bgen: bool,
    pub objen: bool,
    pub objsize: bool,
    pub bgp: u8,
    pub bgp_dot: u8,
    pub obp0: u8,
    pub obp1: u8,
}

/// The histories of the current line, and what it shows of the background.
#[derive(Clone)]
pub struct LineHist {
    bgen: Vec<(u64, bool)>,
    objen: Vec<(u128, bool)>,
    objsize: Vec<(u128, bool)>,
    bgp: Vec<(u64, u8)>,
    obp0: Vec<(u64, u8)>,
    obp1: Vec<(u64, u8)>,
    bgp_dot: Vec<(u128, u8)>,
    obp0_dot: Vec<(u128, u8)>,
    obp1_dot: Vec<(u128, u8)>,
    line_bg_idx: Vec<i8>,
    bgp_writes: Vec<(u64, u8, u8)>,
}

/// What a `LineHist` holds.
#[verifier::ext_equal]
pub struct HistView {
    /// Whether the background is on, by column.
    pub bgen: Seq<(u64, bool)>,
    /// Whether objects are on, by dot.
    pub objen: Seq<(u128, bool)>,
    /// Whether objects are tall, by dot.
    pub objsize: Seq<(u128, bool)>,
    /// The palettes, by column and by dot.
    pub bgp: Seq<(u64, u8)>,
    pub obp0: Seq<(u64, u8)>,
    pub obp1: Seq<(u64, u8)>,
    pub bgp_dot: Seq<(u128, u8)>,
    pub obp0_dot: Seq<(u128, u8)>,
    pub obp1_dot: Seq<(u128, u8)>,
    /// The background colour index shown in each column, -1 where an object
    /// or nothing is shown.
    pub line_bg_idx: Seq<i8>,
    /// Clock, column and value of the line's BGP writes.
    pub bgp_writes: Seq<(u64, u8, u8)>,
}

/// A line on which nothing of the background is shown yet.
pub open spec fn blank_line() -> Seq<i8> {
    Seq::new(160, |i: int| (-1int) as i8)
}

impl HistView {
    pub open spec fn empty() -> HistView {
        HistView {
            bgen: Seq::empty(),
            objen: Seq::empty(),
            objsize: Seq::empty(),
            bgp: Seq::empty(),
            obp0: Seq::empty(),
            obp1: Seq::empty(),
            bgp_dot: Seq::empty(),
            obp0_dot: Seq::empty(),
            obp1_dot: Seq::empty(),
            line_bg_idx: blank_line(),
            bgp_writes: Seq::empty(),
        }
    }

    /// A new line, every history with one entry.
    pub open spec fn started(seed: HistSeed) -> HistView {
        HistView {
            bgen: seq![(0u64, seed.bgen)],
            objen: seq![(0u128, seed.objen)],
            objsize: seq![(0u128, seed.objsize)],
            bgp: seq![(0u64, seed.bgp)],
            obp0: seq![(0u64, seed.obp0)],
            obp1: seq![(0u64, seed.obp1)],
            bgp_dot: seq![(0u128, seed.bgp_dot)],
            obp0_dot: seq![(0u128, seed.obp0)],
            obp1_dot: seq![(0u128, seed.obp1)],
            line_bg_idx: blank_line(),
            bgp_writes: Seq::empty(),
        }
    }

    /// A BGP write that came before the line's pixels.
    pub open spec fn with_early_bgp(self, cc: u64, value: u8) -> HistView {
        HistView {
            bgp: seq![(0u64, value)],
            bgp_writes: self.bgp_writes.push((cc, 0xFF, value)),
            ..self
        }
    }

    /// A BGP write among the line's pixels: it lands on column `x`, `merged` is
    /// what that pixel sees, and `value` shows from column `col` and dot `dot` on.
    pub open spec fn with_bgp(
        self,
        cc: u64,
        x: u8,
        merged: u8,
        col: u64,
        dot: u128,
        value: u8,
    ) -> HistView {
        HistView {
            bgp: self.bgp.push((col, value)),
            bgp_dot: self.bgp_dot.push((dot, value)),
            bgp_writes: self.bgp_writes.push((cc, x, merged)),
            ..self
        }
    }

    /// An object palette write among the line's pixels.
    pub open spec fn with_obp(self, second: bool, col: u64, dot: u128, value: u8) -> HistView {
        if second {
            HistView {
                obp1: self.obp1.push((col, value)),
                obp1_dot: self.obp1_dot.push((dot, value)),
                ..self
            }
        } else {
            HistView {
                obp0: self.obp0.push((col, value)),
                obp0_dot: self.obp0_dot.push((dot, value)),
                ..self
            }
        }
    }

    /// Column `x` shows background colour index `idx`, or none of it.
    pub open spec fn with_bg_idx(self, x: u8, idx: i8) -> HistView {
        if x < self.line_bg_idx.len() {
            HistView { line_bg_idx: self.line_bg_idx.update(x as int, idx), ..self }
        } else {
            self
        }
    }
}

impl View for LineHist {
    type V = HistView;

    closed spec fn view(&self) -> HistView {
        HistView {
            bgen: self.bgen@,
            objen: self.objen@,
            objsize: self.objsize@,
            bgp: self.bgp@,
            obp0: self.obp0@,
            obp1: self.obp1@,
            bgp_dot: self.bgp_dot@,
            obp0_dot: self.obp0_dot@,
            obp1_dot: self.obp1_dot@,
            line_bg_idx: self.line_bg_idx@,
            bgp_writes: self.bgp_writes@,
        }
    }
}

impl LineHist {
    pub fn new() -> (r: Self)
        ensures
            r@ == HistView::empty(),
    {
        let r = LineHist {
            bgen: Vec::new(),
            objen: Vec::new(),
            objsize: Vec::new(),
            bgp: Vec::new(),
            obp0: Vec::new(),
            obp1: Vec::new(),
            bgp_dot: Vec::new(),
            obp0_dot: Vec::new(),
            obp1_dot: Vec::new(),
            line_bg_idx: vec![-1i8; 160],
            bgp_writes: Vec::new(),
        };
        assert(r@ =~= HistView::empty());
        r
    }

    /// Starts a new line.
    pub fn start(&mut self, seed: HistSeed)
        ensures
            final(self)@ == HistView::started(seed),
    {
        self.bgen = vec![(0, seed.bgen)];
        self.objen = vec![(0, seed.objen)];
        self.objsize = vec![(0, seed.objsize)];
        self.bgp = vec![(0, seed.bgp)];
        self.obp0 = vec![(0, seed.obp0)];
        self.obp1 = vec![(0, seed.obp1)];
        self.bgp_dot = vec![(0, seed.bgp_dot)];
        self.obp0_dot = vec![(0, seed.obp0)];
        self.obp1_dot = vec![(0, seed.obp1)];
        self.line_bg_idx = vec![-1i8; 160];
        self.bgp_writes = Vec::new();
        assert(self@ =~= HistView::started(seed));
    }

    pub fn early_bgp(&mut self, cc: u64, value: u8)
        ensures
            final(self)@ == old(self)@.with_early_bgp(cc, value),
    {
        self.bgp = vec![(0, value)];
        self.bgp_writes.push((cc, 0xFF, value));
        assert(self@ =~= old(self)@.with_early_bgp(cc, value));
    }

    pub fn push_bgp(&mut self, cc: u64, x: u8, merged: u8, col: u64, dot: u128, value: u8)
        ensures
            final(self)@ == old(self)@.with_bgp(cc, x, merged, col, dot, value),
    {
        self.bgp.push((col, value));
        self.bgp_dot.push((dot, value));
        self.bgp_writes.push((cc, x, merged));
    }

    pub fn push_obp(&mut self, second: bool, col: u64, dot: u128, value: u8)
        ensures
            final(self)@ == old(self)@.with_obp(second, col, dot, value),
    {
        if second {
            self.obp1.push((col, value));
            self.obp1_dot.push((dot, value));
        } else {
            self.obp0.push((col, value));
            self.obp0_dot.push((dot, value));
        }
    }

    /// Forgets when objects were switched and resized.
    pub fn clear_obj(&mut self)
        ensures
            final(self)@ == (HistView { objen: Seq::empty(), objsize: Seq::empty(), ..old(self)@ }),
    {
        self.objen.clear();
        self.objsize.clear();
        assert(self.objen@ =~= Seq::empty());
        assert(self.objsize@ =~= Seq::empty());
    }

    pub fn push_bgen(&mut self, col: u64, on: bool)
        ensures
            final(self)@ == (HistView { bgen: old(self)@.bgen.push((col, on)), ..old(self)@ }),
    {
        self.bgen.push((col, on));
    }

    pub fn push_objen(&mut self, dot: u128, on: bool)
        ensures
            final(self)@ == (HistView { objen: old(self)@.objen.push((dot, on)), ..old(self)@ }),
    {
        self.objen.push((dot, on));
    }

    pub fn push_objsize(&mut self, dot: u128, large: bool)
        ensures
            final(self)@ == (HistView {
                objsize: old(self)@.objsize.push((dot, large)),
                ..old(self)@
            }),
    {
        self.objsize.push((dot, large));
    }

    pub fn set_bg_idx(&mut self, x: u8, idx: i8)
        ensures
            final(self)@ == old(self)@.with_bg_idx(x, idx),
    {
        if (x as usize) < self.line_bg_idx.len() {
            self.line_bg_idx.set(x as usize, idx);
        }
    }

    pub fn bgen_at(&self, sx: u8, fallback: bool) -> (r: bool)
        ensures
            r == col_value(self@.bgen, sx as u64, fallback),
    {
        value_at_col(self.bgen.as_slice(), sx as u64, fallback)
    }

    pub fn objen_at(&self, tick: u128, fallback: bool) -> (r: bool)
        ensures
            r == dot_value(self@.objen, tick, fallback),
    {
        value_at_dot(self.objen.as_slice(), tick, fallback)
    }

    pub fn objsize_at(&self, tick: u128, fallback: bool) -> (r: bool)
        ensures
            r == dot_value(self@.objsize, tick, fallback),
    {
        value_at_dot(self.objsize.as_slice(), tick, fallback)
    }

    /// Objects were switched on or off during the line.
    pub fn objen_toggled(&self) -> (r: bool)
        ensures
            r == (self@.objen.len() > 1),
    {
        self.objen.len() > 1
    }

    /// Objects changed height during the line.
    pub fn objsize_toggled(&self) -> (r: bool)
        ensures
            r == (self@.objsize.len() > 1),
    {
        self.objsize.len() > 1
    }

    pub fn bgp_at(&self, sx: u8, fallback: u8) -> (r: u8)
        ensures
            r == col_value(self@.bgp, sx as u64, fallback),
    {
        pal_at(self.bgp.as_slice(), sx, fallback)
    }

    pub fn obp_at(&self, obp1: bool, sx: u8, fallback: u8) -> (r: u8)
        ensures
            r == col_value(if obp1 { self@.obp1 } else { self@.obp0 }, sx as u64, fallback),
    {
        if obp1 {
            pal_at(self.obp1.as_slice(), sx, fallback)
        } else {
            pal_at(self.obp0.as_slice(), sx, fallback)
        }
    }

    pub fn bgp_at_tick(&self, tick: u128, fallback: u8) -> (r: u8)
        ensures
            r == dot_value(self@.bgp_dot, tick, fallback),
    {
        pal_at_tick(self.bgp_dot.as_slice(), tick, fallback)
    }

    pub fn obp_at_tick(&self, obp1: bool, tick: u128, fallback: u8) -> (r: u8)
        ensures
            r == dot_value(if obp1 { self@.obp1_dot } else { self@.obp0_dot }, tick, fallback),
    {
        if obp1 {
            pal_at_tick(self.obp1_dot.as_slice(), tick, fallback)
        } else {
            pal_at_tick(self.obp0_dot.as_slice(), tick, fallback)
        }
    }

    pub fn bgp_write_count(&self) -> (r: usize)
        ensures
            r == self@.bgp_writes.len(),
    {
        self.bgp_writes.len()
    }

    pub fn bgp_write(&self, i: usize) -> (r: (u64, u8, u8))
        requires
            i < self@.bgp_writes.len(),
        ensures
            r == self@.bgp_writes[i as int],
    {
        self.bgp_writes[i]
    }

    /// The background index that column `x` shows, -1 for none.
    pub fn bg_idx(&self, x: u8) -> (r: i8)
        ensures
            r == if x < self@.line_bg_idx.len() {
                self@.line_bg_idx[x as int]
            } else {
                (-1int) as i8
            },
    {
        if (x as usize) < self.line_bg_idx.len() { self.line_bg_idx[x as usize] } else { -1 }
    }
}

/// A palette's value at dot `tick`.
pub fn pal_at_tick(hist: &[(u128, u8)], tick: u128, fallback: u8) -> (r: u8)
    ensures
        r == dot_value(hist@, tick, fallback),
{
    value_at_dot(hist, tick, fallback)
}

/// A palette's value in screen column `sx`.
pub fn pal_at(hist: &[(u64, u8)], sx: u8, fallback: u8) -> (r: u8)
    ensures
        r == col_value(hist@, sx as u64, fallback),
{
    pal_at_col(hist, sx as u64, fallback)
}

fn pal_at_col(hist: &[(u64, u8)], sample_col: u64, fallback: u8) -> (r: u8)
    ensures
        r == col_value(hist@, sample_col, fallback),
{
    value_at_col(hist, sample_col, fallback)
}

/// A history with a single entry has that value everywhere.
pub proof fn law_single_entry_holds_everywhere(hist: Seq<(u64, u8)>, at: u64, fallback: u8)
    requires
        hist.len() == 1,
    ensures
        col_value(hist, at, fallback) == hist[0].1,
{
    assert(col_reached(hist, at, 1) == 1);
}

/// An entry appended at a column that has not been passed does not change the
/// columns to its left.
pub proof fn law_append_keeps_the_past(hist: Seq<(u64, u8)>, entry: (u64, u8), at: u64, fallback: u8)
    requires
        hist.len() > 0,
        at < entry.0,
    ensures
        col_value(hist.push(entry), at, fallback) == col_value(hist, at, fallback),
{
    lemma_reached_push(hist, entry, at, 0);
    lemma_reached_bound(hist, at, 0);
}

proof fn lemma_reached_push(hist: Seq<(u64, u8)>, entry: (u64, u8), at: u64, n: int)
    requires
        at < entry.0,
        0 <= n <= hist.len(),
    ensures
        col_reached(hist.push(entry), at, n) == col_reached(hist, at, n),
    decreases hist.len() - n,
{
    if n < hist.len() && hist[n].0 <= at {
        lemma_reached_push(hist, entry, at, n + 1);
    }
}

proof fn lemma_reached_bound(hist: Seq<(u64, u8)>, at: u64, n: int)
    requires
        0 <= n <= hist.len(),
    ensures
        n <= col_reached(hist, at, n) <= hist.len(),
    decreases hist.len() - n,
{
    if n < hist.len() && hist[n].0 <= at {
        lemma_reached_bound(hist, at, n + 1);
    }
}


/// The line's histories in their parts.
pub struct LineHistParts {
    pub bgen: Vec<(u64, bool)>,
    pub objen: Vec<(u128, bool)>,
    pub objsize: Vec<(u128, bool)>,
    pub bgp: Vec<(u64, u8)>,
    pub obp0: Vec<(u64, u8)>,
    pub obp1: Vec<(u64, u8)>,
    pub bgp_dot: Vec<(u128, u8)>,
    pub obp0_dot: Vec<(u128, u8)>,
    pub obp1_dot: Vec<(u128, u8)>,
    pub line_bg_idx: Vec<i8>,
    pub bgp_writes: Vec<(u64, u8, u8)>,
}

impl View for LineHistParts {
    type V = HistView;

    open spec fn view(&self) -> HistView {
        HistView {
            bgen: self.bgen@,
            objen: self.objen@,
            objsize: self.objsize@,
            bgp: self.bgp@,
            obp0: self.obp0@,
            obp1: self.obp1@,
            bgp_dot: self.bgp_dot@,
            obp0_dot: self.obp0_dot@,
            obp1_dot: self.obp1_dot@,
            line_bg_idx: self.line_bg_idx@,
            bgp_writes: self.bgp_writes@,
        }
    }
}

impl LineHist {
    /// Takes the value apart.
    pub fn into_parts(self) -> (r: LineHistParts)
        ensures
            r@ == self@,
    {
        LineHistParts {
            bgen: self.bgen,
            objen: self.objen,
            objsize: self.objsize,
            bgp: self.bgp,
            obp0: self.obp0,
            obp1: self.obp1,
            bgp_dot: self.bgp_dot,
            obp0_dot: self.obp0_dot,
            obp1_dot: self.obp1_dot,
            line_bg_idx: self.line_bg_idx,
            bgp_writes: self.bgp_writes,
        }
    }

    /// Puts the value together again.
    pub fn from_parts(parts: LineHistParts) -> (r: Self)
        ensures
            r@ == parts@,
    {
        LineHist {
            bgen: parts.bgen,
            objen: parts.objen,
            objsize: parts.objsize,
            bgp: parts.bgp,
            obp0: parts.obp0,
            obp1: parts.obp1,
            bgp_dot: parts.bgp_dot,
            obp0_dot: parts.obp0_dot,
            obp1_dot: parts.obp1_dot,
            line_bg_idx: parts.line_bg_idx,
            bgp_writes: parts.bgp_writes,
        }
    }
}

} // verus!
