//! How the scan's copy of OAM follows OAM.

use vstd::prelude::*;

use crate::irq_laws::in_cycles;
use crate::ly_counter::LyCounter;
use crate::oam_reader::OamReaderView;

verus! {

/// The scan passes the objects in order, two positions each: those it has passed
/// have their Y and X from OAM, and the height in force; the others keep what
/// they had. Between its two positions a CGB object that was tall stays tall.
pub proof fn law_scan_copies_in_order(r: OamReaderView, pos: int, n: int, oam: Seq<u8>, k: int)
    requires
        r.wf(),
        oam.len() == 80,
        !r.src_disabled,
        0 <= pos,
        0 <= n,
        pos + n <= 80,
        0 <= k < 40,
    ensures
        ({
            let t = r.scan(pos, n, oam);
            let passed = pos <= 2 * k < pos + n;
            &&& t.wf()
            &&& t.buf[2 * k] == if passed { oam[2 * k] } else { r.buf[2 * k] }
            &&& t.buf[2 * k + 1] == if passed { oam[2 * k + 1] } else { r.buf[2 * k + 1] }
            &&& t.ghost_slot[k] == (!passed && r.ghost_slot[k])
            &&& pos <= 2 * k && 2 * k + 1 < pos + n ==> t.lsbuf[k] == r.large_src
            &&& pos == 2 * k + 1 && n > 0 ==> t.lsbuf[k] == ((r.lsbuf[k] && r.cgb) || r.large_src)
            &&& 2 * k + 1 < pos || pos + n <= 2 * k ==> t.lsbuf[k] == r.lsbuf[k]
            &&& t.large_src == r.large_src && t.cgb == r.cgb && !t.src_disabled
        }),
    decreases n,
{
    if n > 0 {
        let one = r.scan_one(pos, oam);
        assert(one.wf());
        law_scan_copies_in_order(one, pos + 1, n - 1, oam, k);
    }
}

/// While OAM is cut off by a DMA every object that the scan passes gets the pair
/// that was left on the bus.
pub proof fn law_cut_off_scan_reads_the_bus(r: OamReaderView, pos: int, n: int, oam: Seq<u8>, k: int)
    requires
        r.wf(),
        r.src_disabled,
        0 <= pos,
        0 <= n,
        pos + n <= 80,
        0 <= k < 40,
    ensures
        ({
            let t = r.scan(pos, n, oam);
            let passed = pos <= 2 * k < pos + n;
            &&& t.wf()
            &&& passed ==> t.buf[2 * k] == r.ghost_pos.0 && t.buf[2 * k + 1] == r.ghost_pos.1
                && t.ghost_slot[k]
            &&& !passed ==> t.buf[2 * k] == r.buf[2 * k] && t.buf[2 * k + 1] == r.buf[2 * k + 1]
                && t.ghost_slot[k] == r.ghost_slot[k]
            &&& t.ghost_pos == r.ghost_pos && t.src_disabled && t.cgb == r.cgb
        }),
    decreases n,
{
    if n > 0 {
        let one = r.scan_one(pos, oam);
        assert(one.wf());
        law_cut_off_scan_reads_the_bus(one, pos + 1, n - 1, oam, k);
    }
}

/// The line counter says that `dots` dots of the line are left at `cc`.
pub open spec fn dots_left(lc: LyCounter, cc: u64, dots: int) -> bool {
    in_cycles(dots, lc.ds) <= lc.time - cc < in_cycles(dots + 1, lc.ds)
}

/// A change of OAM on dot `d` of a line is noted with the position after it, at
/// most 80; the copy is brought up to that dot first.
pub proof fn law_change_is_noted_with_its_dot(
    r: OamReaderView,
    cc: u64,
    lc: LyCounter,
    oam: Seq<u8>,
    d: int,
)
    requires
        r.wf(),
        r.lu < cc < 0x4000_0000_0000_0000,
        lc.time < 0x4000_0000_0000_0000,
        0 <= d < 455,
        dots_left(lc, cc, 456 - d),
    ensures
        ({
            let t = r.change(cc, lc, oam);
            &&& t.lu == cc
            &&& t.last_change == if d + 1 > 80 { 80 } else { d + 1 }
            &&& t.buf == r.update(cc, lc, oam).buf
        }),
{
    reveal(OamReaderView::update);
    reveal(OamReaderView::change);
    lemma_scan_lu(r, cc, lc, oam);
}

proof fn lemma_scan_lu(r: OamReaderView, cc: u64, lc: LyCounter, oam: Seq<u8>)
    requires
        r.lu < cc < 0x4000_0000_0000_0000,
    ensures
        r.update(cc, lc, oam).lu == cc,
{
    reveal(OamReaderView::update);
}

/// A copy to which nothing has happened stays; one that a whole line has passed
/// since is OAM itself.
pub proof fn law_copy_is_oam_after_a_line(
    r: OamReaderView,
    cc: u64,
    lc: LyCounter,
    oam: Seq<u8>,
    i: int,
)
    requires
        oam.len() == 80,
        0 <= i < 80,
        cc > r.lu,
    ensures
        r.last_change == 255 ==> r.update(cc, lc, oam).buf == r.buf,
        r.last_change != 255 && !r.src_disabled && cc - r.lu >= in_cycles(456, lc.ds) ==> r.update(
            cc,
            lc,
            oam,
        ).buf[i] == oam[i] && r.update(cc, lc, oam).lsbuf[i / 2] == r.large_src,
{
    reveal(OamReaderView::update);
}

/// Switching on empties the copy, to be filled from the 81st dot on; starting
/// over takes it from OAM.
pub proof fn law_copy_starts(r: OamReaderView, oam: Seq<u8>, cgb: bool, cc: u64, ds: bool, i: int)
    requires
        0 <= i < 80,
        cc < 0x4000_0000_0000_0000,
    ensures
        r.enable_display(cc, ds).buf[i] == 0,
        r.enable_display(cc, ds).lu == cc + in_cycles(80, ds) + 1,
        r.enable_display(cc, ds).last_change == 80,
        r.reset(oam, cgb).buf == oam,
        r.reset(oam, cgb).last_change == 255,
        r.reset(oam, cgb).cgb == cgb,
{
}

/// Cutting OAM off in the middle of its scan leaves the pair before the last
/// change on the bus.
pub proof fn law_pair_left_on_the_bus(r: OamReaderView, line_has_fetches: bool)
    requires
        r.wf(),
        2 <= r.last_change < 80,
    ensures
        ({
            let p = r.last_change - 1 - (r.last_change - 1) % 2;
            r.capture_ghost(line_has_fetches).ghost_pos == (r.buf[p], r.buf[p + 1])
        }),
        r.capture_ghost(line_has_fetches).buf == r.buf,
{
}

} // verus!
