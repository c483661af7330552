//! What the write probe counts.

use vstd::prelude::*;

use crate::dirty_probe::{count_seen, count_seen_dirty, watched_addr, ProbeView, WatchedReg};

verus! {

proof fn lemma_mark_counts(seen: Seq<bool>, ly: int, n: int)
    requires
        0 <= ly < seen.len(),
        0 <= n <= seen.len(),
    ensures
        count_seen(seen.update(ly, true), n) == count_seen(seen, n) + if ly < n && !seen[ly] {
            1int
        } else {
            0
        },
    decreases n,
{
    if n > 0 {
        lemma_mark_counts(seen, ly, n - 1);
    }
}

proof fn lemma_dirty_counts(seen: Seq<bool>, dirty: Seq<bool>, ly: int, n: int)
    requires
        seen.len() == dirty.len(),
        0 <= ly < seen.len(),
        0 <= n <= seen.len(),
    ensures
        count_seen_dirty(seen.update(ly, true), dirty.update(ly, true), n) == count_seen_dirty(
            seen,
            dirty,
            n,
        ) + if ly < n && !(seen[ly] && dirty[ly]) { 1int } else { 0 },
        !dirty[ly] ==> count_seen_dirty(seen.update(ly, true), dirty, n) == count_seen_dirty(
            seen,
            dirty,
            n,
        ),
    decreases n,
{
    if n > 0 {
        lemma_dirty_counts(seen, dirty, ly, n - 1);
    }
}

/// A write while a line is drawn makes that line one more dirty line of the
/// frame, unless it is one already, and one more event of its register; a
/// blocked write makes no line dirty.
pub proof fn law_write_makes_one_line_dirty(p: ProbeView, reg: WatchedReg, ly: u8)
    requires
        p.wf(),
        ly < 144,
        p.dirty[ly as int] ==> p.seen[ly as int],
        p.reg_events[reg.spec_idx()] < u64::MAX,
        p.reg_dirty_lines[reg.spec_idx()] < u64::MAX,
    ensures
        ({
            let w = p.write(reg, ly, true, false);
            let b = p.write(reg, ly, true, true);
            let r = reg.spec_idx();
            &&& w.finish().dirty_lines == p.finish().dirty_lines + if p.dirty[ly as int] {
                0int
            } else {
                1
            }
            &&& w.finish().visible_lines == p.finish().visible_lines + if p.seen[ly as int] {
                0int
            } else {
                1
            }
            &&& w.reg_events[r] == p.reg_events[r] + 1
            &&& w.reg_dirty_lines[r] == p.reg_dirty_lines[r] + if p.reg_dirty[ly as int][r] {
                0int
            } else {
                1
            }
            &&& w.blocked == p.blocked
            &&& b.blocked == p.blocked + 1
            &&& b.reg_events == p.reg_events
            &&& b.finish().dirty_lines == p.finish().dirty_lines
        }),
{
    lemma_mark_counts(p.seen, ly as int, 144);
    lemma_dirty_counts(p.seen, p.dirty, ly as int, 144);
    if p.seen[ly as int] {
        assert(p.seen.update(ly as int, true) =~= p.seen);
    }
}

/// A write to one register counts for that one alone.
pub proof fn law_registers_count_apart(p: ProbeView, a: WatchedReg, b: WatchedReg, ly: u8)
    requires
        p.wf(),
        a != b,
    ensures
        p.write(a, ly, true, false).reg_events[b.spec_idx()] == p.reg_events[b.spec_idx()],
        p.write(a, ly, true, false).reg_dirty_lines[b.spec_idx()] == p.reg_dirty_lines[b.spec_idx()],
{
}

/// A frame's end counts the frame and forgets its lines.
pub proof fn law_frame_end_forgets_lines(p: ProbeView, ly: int)
    requires
        p.wf(),
        0 <= ly < 144,
    ensures
        p.finish().frames == p.frames + 1,
        !p.finish().seen[ly],
        !p.finish().dirty[ly],
        p.finish().reg_events == p.reg_events,
        p.finish().finish().dirty_lines == p.finish().dirty_lines,
{
    lemma_none_dirty(p.finish().seen, p.finish().dirty, 144);
}

proof fn lemma_none_dirty(seen: Seq<bool>, dirty: Seq<bool>, n: int)
    requires
        0 <= n <= seen.len(),
        forall|i: int| 0 <= i < seen.len() ==> !#[trigger] seen[i],
    ensures
        count_seen_dirty(seen, dirty, n) == 0,
    decreases n,
{
    if n > 0 {
        lemma_none_dirty(seen, dirty, n - 1);
    }
}

/// The watched registers lie where the bus has them.
pub proof fn law_watched_registers_lie_on_the_bus()
    ensures
        watched_addr(WatchedReg::Lcdc) == crate::regs::LCD_CONTROL,
        watched_addr(WatchedReg::Scy) == crate::regs::SCY,
        watched_addr(WatchedReg::Scx) == crate::regs::SCX,
        watched_addr(WatchedReg::Bgp) == crate::regs::BGP,
        watched_addr(WatchedReg::Obp0) == crate::regs::OBP0,
        watched_addr(WatchedReg::Obp1) == crate::regs::OBP1,
        watched_addr(WatchedReg::Wx) == crate::regs::WX,
{
}

} // verus!
