//! The value of a register along a line, and what its changes do to pixels.

use vstd::prelude::*;

use crate::history::{col_reached, col_value, dot_reached, dot_value};
use crate::mmio::Mmio;
use crate::objects::SpriteFetchPhase;
use crate::state::{PpuView, State};

verus! {

/// The entries lie in order of their dots.
pub open spec fn dots_in_order<V>(hist: Seq<(u128, V)>) -> bool {
    forall|i: int, j: int| 0 <= i <= j < hist.len() ==> (#[trigger] hist[i]).0 <= (
    #[trigger] hist[j]).0
}

/// The entries lie in order of their columns.
pub open spec fn columns_in_order<V>(hist: Seq<(u64, V)>) -> bool {
    forall|i: int, j: int| 0 <= i <= j < hist.len() ==> (#[trigger] hist[i]).0 <= (
    #[trigger] hist[j]).0
}

/// The value at dot `at`: the newest that has come by then, or the first.
pub open spec fn value_by_dot<V>(hist: Seq<(u128, V)>, at: int, fallback: V) -> V
    decreases hist.len(),
{
    if hist.len() == 0 {
        fallback
    } else if hist.len() == 1 || hist.last().0 <= at {
        hist.last().1
    } else {
        value_by_dot(hist.drop_last(), at, fallback)
    }
}

/// The value in column `at`.
pub open spec fn value_by_column<V>(hist: Seq<(u64, V)>, at: int, fallback: V) -> V
    decreases hist.len(),
{
    if hist.len() == 0 {
        fallback
    } else if hist.len() == 1 || hist.last().0 <= at {
        hist.last().1
    } else {
        value_by_column(hist.drop_last(), at, fallback)
    }
}

proof fn lemma_dot_reached<V>(hist: Seq<(u128, V)>, at: u128, n: int)
    requires
        0 <= n <= hist.len(),
    ensures
        ({
            let r = dot_reached(hist, at, n);
            &&& n <= r <= hist.len()
            &&& forall|k: int| n <= k < r ==> (#[trigger] hist[k]).0 <= at
            &&& r < hist.len() ==> hist[r].0 > at
        }),
    decreases hist.len() - n,
{
    if n < hist.len() && hist[n].0 <= at {
        lemma_dot_reached(hist, at, n + 1);
    }
}

proof fn lemma_col_reached<V>(hist: Seq<(u64, V)>, at: u64, n: int)
    requires
        0 <= n <= hist.len(),
    ensures
        ({
            let r = col_reached(hist, at, n);
            &&& n <= r <= hist.len()
            &&& forall|k: int| n <= k < r ==> (#[trigger] hist[k]).0 <= at
            &&& r < hist.len() ==> hist[r].0 > at
        }),
    decreases hist.len() - n,
{
    if n < hist.len() && hist[n].0 <= at {
        lemma_col_reached(hist, at, n + 1);
    }
}

proof fn lemma_dot_prefix<V>(hist: Seq<(u128, V)>, at: u128, n: int)
    requires
        hist.len() > 0,
        hist.last().0 > at,
        0 <= n < hist.len(),
    ensures
        dot_reached(hist.drop_last(), at, n) == dot_reached(hist, at, n),
    decreases hist.len() - n,
{
    if n < hist.len() - 1 && hist[n].0 <= at {
        lemma_dot_prefix(hist, at, n + 1);
    }
}

proof fn lemma_col_prefix<V>(hist: Seq<(u64, V)>, at: u64, n: int)
    requires
        hist.len() > 0,
        hist.last().0 > at,
        0 <= n < hist.len(),
    ensures
        col_reached(hist.drop_last(), at, n) == col_reached(hist, at, n),
    decreases hist.len() - n,
{
    if n < hist.len() - 1 && hist[n].0 <= at {
        lemma_col_prefix(hist, at, n + 1);
    }
}

/// Looking a history up gives the newest value that has come by the dot.
pub proof fn law_history_by_dot<V>(hist: Seq<(u128, V)>, at: u128, fallback: V)
    requires
        dots_in_order(hist),
    ensures
        dot_value(hist, at, fallback) == value_by_dot(hist, at as int, fallback),
    decreases hist.len(),
{
    lemma_dot_reached(hist, at, 0);
    if hist.len() == 1 {
    } else if hist.len() > 1 {
        if hist.last().0 <= at {
            let r = dot_reached(hist, at, 0);
            if r < hist.len() {
                assert(hist[r].0 <= hist[hist.len() - 1].0);
            }
        } else {
            law_history_by_dot(hist.drop_last(), at, fallback);
            lemma_dot_prefix(hist, at, 0);
        }
    }
}

/// The same by column.
pub proof fn law_history_by_column<V>(hist: Seq<(u64, V)>, at: u64, fallback: V)
    requires
        columns_in_order(hist),
    ensures
        col_value(hist, at, fallback) == value_by_column(hist, at as int, fallback),
    decreases hist.len(),
{
    lemma_col_reached(hist, at, 0);
    if hist.len() == 1 {
    } else if hist.len() > 1 {
        if hist.last().0 <= at {
            let r = col_reached(hist, at, 0);
            if r < hist.len() {
                assert(hist[r].0 <= hist[hist.len() - 1].0);
            }
        } else {
            law_history_by_column(hist.drop_last(), at, fallback);
            lemma_col_prefix(hist, at, 0);
        }
    }
}

/// Among a line's pixels an object switch shows two dots after its write on DMG
/// hardware and three on CGB hardware, a change of height one dot after.
pub proof fn law_object_switch_shows(s: PpuView, value: u8, m: Mmio, at: u128)
    requires
        !m.cgb_features,
        s.lcdc.reg & 0x80 != 0,
        value & 0x80 != 0,
        s.state == State::PixelTransfer,
        s.ticks < 0x1_0000,
        s.hist.objen.len() > 0,
        s.hist.objsize.len() > 0,
        dots_in_order(s.hist.objen),
        dots_in_order(s.hist.objsize),
        s.hist.objen.last().0 <= s.ticks + 2,
        s.hist.objsize.last().0 <= s.ticks + 1,
        (s.lcdc.reg & 0x02 != 0) != (value & 0x02 != 0),
        (s.lcdc.reg & 0x04 != 0) != (value & 0x04 != 0),
    ensures
        s.lw_objen(value, m).objen_at_tick(at) == if at >= s.ticks + (if m.cgb_hardware {
            3int
        } else {
            2
        }) {
            value & 0x02 != 0
        } else {
            s.objen_at_tick(at)
        },
        s.lw_objsize(value, m).objsize_large_at_tick(at) == if at > s.ticks {
            value & 0x04 != 0
        } else {
            s.objsize_large_at_tick(at)
        },
{
    reveal(PpuView::lw_objen);
    reveal(PpuView::lw_objsize);
    let r = s.lw_objen(value, m);
    let t = s.lw_objsize(value, m);
    assert(r.hist.objen.drop_last() =~= s.hist.objen);
    assert(t.hist.objsize.drop_last() =~= s.hist.objsize);
    assert(dots_in_order(r.hist.objen));
    assert(dots_in_order(t.hist.objsize));
    law_history_by_dot(r.hist.objen, at, r.lcdc.reg & 0x02 != 0);
    law_history_by_dot(s.hist.objen, at, s.lcdc.reg & 0x02 != 0);
    law_history_by_dot(t.hist.objsize, at, t.lcdc.reg & 0x04 != 0);
    law_history_by_dot(s.hist.objsize, at, s.lcdc.reg & 0x04 != 0);
}

/// Whether the background is on in a column is the newest switch up to it.
pub proof fn law_background_is_on_by_column(s: PpuView, sx: u8)
    requires
        columns_in_order(s.hist.bgen),
    ensures
        s.bgen_at(sx) == value_by_column(s.hist.bgen, sx as int, s.lcdc.reg & 0x01 != 0),
{
    law_history_by_column(s.hist.bgen, sx as u64, s.lcdc.reg & 0x01 != 0);
}

/// On a line on which objects were switched none shows on a dot on which they
/// are off, nor one whose fetch was broken off.
pub proof fn law_switched_off_objects_do_not_show(
    s: PpuView,
    m: Mmio,
    i: int,
    sx: u8,
    sy: u8,
    idx: u8,
    quirk: bool,
)
    requires
        s.hist.objen.len() > 1,
        0 <= i < s.line.sprites.len(),
        s.ticks < 0x1_0000,
        (!s.objen_at_tick(s.ticks) && !s.objen_at_tick((s.ticks + 1) as u128)) || (0 <= i
            < s.line.recs.len() && s.line.recs[i].phase == SpriteFetchPhase::Aborted),
    ensures
        s.winning_pixel(m, i, sx, sy, idx, quirk) is None,
{
}

/// An object whose fetch began fifteen dots ago or more goes by the next dot
/// already where the hardware does so, any other by the present one.
pub proof fn law_old_fetches_look_a_dot_ahead(
    s: PpuView,
    m: Mmio,
    i: int,
    sx: u8,
    sy: u8,
    idx: u8,
    quirk: bool,
)
    requires
        s.hist.objen.len() > 1,
        s.hist.objsize.len() <= 1,
        0 <= i < s.line.sprites.len(),
        i < s.line.recs.len(),
        s.line.recs[i].phase == SpriteFetchPhase::Fetched,
        s.ticks < 0x1_0000,
    ensures
        ({
            let ahead = quirk && s.ticks - s.line.recs[i].arm_tick >= 15;
            let on = s.objen_at_tick(if ahead { (s.ticks + 1) as u128 } else { s.ticks });
            let shows = !s.line.sprites[i].attributes.priority || idx == 0;
            s.winning_pixel(m, i, sx, sy, idx, quirk) == if on && shows {
                s.visible_pixel(m, i, sx, sy)
            } else {
                None
            }
        }),
{
}

/// While they are on, switching them earlier or later on the line does not
/// matter to an object that was fetched.
pub proof fn law_switched_on_objects_show(
    s: PpuView,
    m: Mmio,
    i: int,
    sx: u8,
    sy: u8,
    idx: u8,
    quirk: bool,
)
    requires
        s.hist.objsize.len() <= 1,
        0 <= i < s.line.sprites.len(),
        s.ticks < 0x1_0000,
        s.objen_at_tick(s.ticks) && s.objen_at_tick((s.ticks + 1) as u128),
        0 <= i < s.line.recs.len() ==> s.line.recs[i].phase != SpriteFetchPhase::Aborted,
    ensures
        ({
            let o = s.line.sprites[i];
            let shows = !o.attributes.priority || idx == 0;
            s.winning_pixel(m, i, sx, sy, idx, quirk) == if shows {
                s.visible_pixel(m, i, sx, sy)
            } else {
                None
            }
        }),
{
}

} // verus!
