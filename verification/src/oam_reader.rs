//! The OAM scan's own copy of the object positions, refreshed two bytes at a
//! time as the scan passes them.

use vstd::prelude::*;

use crate::arith::{floor_mod, to_dots};
use crate::ly_counter::LyCounter;
use crate::regs::{
    as_signed, cycles_to_dots, dots_to_cycles, signed, CLOCK_LIMIT, LCD_CYCLES_PER_LINE,
};

verus! {

/// Scan positions in a line: one per byte of the forty positions.
pub const OAM_POS_CYCLES: u32 = 80;

/// Clock cycles by which a DMA edge reaches the scan early.
pub const OAMDMA_CHANGE_CC_OFFSET: u32 = 3;

/// Forty flags as the low forty bits of a word.
pub open spec fn mask_bit(mask: u64, i: int) -> bool {
    mask & (1u64 << i as u64) != 0
}

/// Packs forty flags; flag `i` becomes bit `i`, the bits above stay clear.
pub fn pack_flags(v: &[bool; 40]) -> (mask: u64)
    ensures
        forall|i: int| 0 <= i < 40 ==> #[trigger] mask_bit(mask, i) == v[i],
        forall|i: int| 40 <= i < 64 ==> !#[trigger] mask_bit(mask, i),
{
    let mut mask: u64 = 0;
    let mut i: u64 = 0;
    assert forall|k: int| 0 <= k < 64 implies !#[trigger] mask_bit(mask, k) by {
        let kk: u64 = k as u64;
        assert(0u64 & (1u64 << kk) == 0) by (bit_vector);
    }
    while i < 40
        invariant
            i <= 40,
            forall|k: int| 0 <= k < i ==> #[trigger] mask_bit(mask, k) == v[k],
            forall|k: int| i <= k < 64 ==> !#[trigger] mask_bit(mask, k),
        decreases 40 - i,
    {
        if v[i as usize] {
            let next: u64 = mask | (1u64 << i);
            assert forall|k: int| 0 <= k < 64 implies #[trigger] mask_bit(next, k) == (if k == i {
                true
            } else {
                mask_bit(mask, k)
            }) by {
                let kk: u64 = k as u64;
                assert(((mask | (1u64 << i)) & (1u64 << kk) != 0) == (if kk == i {
                    true
                } else {
                    mask & (1u64 << kk) != 0
                })) by (bit_vector)
                    requires
                        kk < 64,
                        i < 64,
                ;
            }
            mask = next;
        }
        i += 1;
    }
    mask
}

/// The flags in the low forty bits of `mask`.
pub fn unpack_flags(mask: u64) -> (r: [bool; 40])
    ensures
        forall|i: int| 0 <= i < 40 ==> #[trigger] r[i] == mask_bit(mask, i),
{
    let mut out: [bool; 40] = [false; 40];
    let mut i: usize = 0;
    while i < 40
        invariant
            i <= 40,
            forall|k: int| 0 <= k < i ==> out[k] == mask_bit(mask, k),
        decreases 40 - i,
    {
        out[i] = (mask & (1u64 << (i as u64))) != 0;
        i += 1;
    }
    out
}

/// Flags that pack into the same word are the same flags, so unpacking gives
/// back what was packed.
pub proof fn law_packed_flags_round_trip(mask: u64, packed: Seq<bool>, unpacked: Seq<bool>)
    requires
        packed.len() == 40,
        unpacked.len() == 40,
        forall|i: int| 0 <= i < 40 ==> #[trigger] mask_bit(mask, i) == packed[i],
        forall|i: int| 0 <= i < 40 ==> #[trigger] unpacked[i] == mask_bit(mask, i),
    ensures
        unpacked == packed,
{
    assert(unpacked =~= packed);
}

/// The scan's copy of OAM.
#[derive(Clone, Copy)]
pub struct OamReader {
    /// Y and X of the forty objects, as last seen.
    buf: [u8; 80],
    /// Whether the object was tall when last seen.
    lsbuf: [bool; 40],
    /// Clock reading up to which the copy is current.
    lu: u64,
    /// Scan position of the last change, 0xFF when all is current.
    last_change: u8,
    large_src: bool,
    cgb: bool,
    /// OAM is cut off by a DMA; the scan sees `ghost_pos`.
    src_disabled: bool,
    /// The bytes left on the bus when OAM was cut off.
    ghost_pos: (u8, u8),
    /// Objects that were read while OAM was cut off.
    ghost_slot: [bool; 40],
}

/// What an `OamReader` holds.
#[verifier::ext_equal]
pub struct OamReaderView {
    pub buf: Seq<u8>,
    pub lsbuf: Seq<bool>,
    pub lu: u64,
    pub last_change: u8,
    pub large_src: bool,
    pub cgb: bool,
    pub src_disabled: bool,
    pub ghost_pos: (u8, u8),
    pub ghost_slot: Seq<bool>,
}

/// Forty flags, all alike.
pub open spec fn flags40(v: bool) -> Seq<bool> {
    Seq::new(40, |i: int| v)
}

/// Line position of clock reading `cc` in scan cycles, one ahead of the dot.
pub open spec fn pos_cycles(cc: u64, lc: LyCounter) -> int {
    let span = lc.time.wrapping_sub(cc);
    let dots = if lc.ds { span as int / 2 } else { signed(span) };
    (457 - dots) % 456
}

impl OamReaderView {
    pub open spec fn changed(self) -> bool {
        self.last_change != 0xFF
    }

    /// A fresh reader.
    pub open spec fn fresh() -> OamReaderView {
        OamReaderView {
            buf: Seq::new(80, |i: int| 0u8),
            lsbuf: flags40(false),
            lu: 0,
            last_change: 0xFF,
            large_src: false,
            cgb: false,
            src_disabled: false,
            ghost_pos: (0xFF, 0xFF),
            ghost_slot: flags40(false),
        }
    }

    pub open spec fn reset(self, oam: Seq<u8>, cgb: bool) -> OamReaderView {
        OamReaderView { buf: oam, cgb, ..OamReaderView::fresh() }
    }

    pub open spec fn enable_display(self, cc: u64, ds: bool) -> OamReaderView {
        OamReaderView {
            buf: Seq::new(80, |i: int| 0u8),
            lsbuf: flags40(false),
            ghost_pos: (0xFF, 0xFF),
            ghost_slot: flags40(false),
            lu: (cc + dots_to_cycles(80, ds) + 1) as u64,
            last_change: 80,
            ..self
        }
    }

    /// The byte pair on the bus when OAM is cut off: nothing when no pair was
    /// just read and the line has objects to fetch, otherwise the pair before
    /// the last change.
    pub open spec fn capture_ghost(self, line_has_fetches: bool) -> OamReaderView {
        let cap = if self.last_change > 80 { 80 } else { self.last_change as int };
        let mid = 2 <= cap < 80;
        let p = if cap >= 2 { (cap - 1) / 2 * 2 } else { 78 };
        OamReaderView {
            ghost_pos: if !mid && line_has_fetches {
                (0xFF, 0xFF)
            } else {
                (self.buf[p], self.buf[p + 1])
            },
            ..self
        }
    }

    /// The whole copy refreshed at once.
    pub open spec fn refreshed(self, oam: Seq<u8>) -> OamReaderView {
        OamReaderView {
            lsbuf: flags40(self.large_src),
            buf: Seq::new(
                80,
                |i: int|
                    if self.src_disabled {
                        if i % 2 == 0 { self.ghost_pos.0 } else { self.ghost_pos.1 }
                    } else {
                        oam[i]
                    },
            ),
            ghost_slot: flags40(self.src_disabled),
            last_change: 0xFF,
            ..self
        }
    }

    /// One scan cycle at position `pos` (80 stands for 0): an even position
    /// reads an object's pair, an odd one its height.
    pub open spec fn scan_one(self, pos: int, oam: Seq<u8>) -> OamReaderView {
        if pos % 2 == 0 {
            let p = if pos == 80 { 0 } else { pos };
            OamReaderView {
                lsbuf: if self.cgb { self.lsbuf.update(p / 2, self.large_src) } else { self.lsbuf },
                ghost_slot: self.ghost_slot.update(p / 2, self.src_disabled),
                buf: if self.src_disabled {
                    self.buf.update(p, self.ghost_pos.0).update(p + 1, self.ghost_pos.1)
                } else {
                    self.buf.update(p, oam[p]).update(p + 1, oam[p + 1])
                },
                ..self
            }
        } else {
            OamReaderView {
                lsbuf: self.lsbuf.update(
                    pos / 2,
                    (self.lsbuf[pos / 2] && self.cgb) || self.large_src,
                ),
                ..self
            }
        }
    }

    /// The position after `pos`.
    pub open spec fn scan_next(pos: int) -> int {
        if pos == 80 { 1 } else { pos + 1 }
    }

    /// `n` scan cycles from position `pos` on.
    pub open spec fn scan(self, pos: int, n: int, oam: Seq<u8>) -> OamReaderView
        decreases n,
    {
        if n <= 0 {
            self
        } else {
            self.scan_one(pos, oam).scan(OamReaderView::scan_next(pos), n - 1, oam)
        }
    }

    /// The copy brought up to `cc`: the scan runs from where it stood to the
    /// present line position, or to the last change if it gets there.
    #[verifier::opaque]
    pub open spec fn update(self, cc: u64, lc: LyCounter, oam: Seq<u8>) -> OamReaderView {
        if cc <= self.lu {
            self
        } else if !self.changed() {
            OamReaderView { lu: cc, ..self }
        } else if cycles_to_dots(cc - self.lu, lc.ds) >= LCD_CYCLES_PER_LINE {
            OamReaderView { lu: cc, ..self.refreshed(oam) }
        } else {
            let from = pos_cycles(self.lu, lc);
            let to = pos_cycles(cc, lc);
            let pos = if from > 80 { 80 } else { from };
            let dist = (if to > 80 { 80 } else { to }) - pos + if to < from { 80int } else { 0 };
            let target = self.last_change - pos + if self.last_change <= pos { 80int } else { 0 };
            if target <= dist {
                OamReaderView { lu: cc, last_change: 0xFF, ..self.scan(pos, target, oam) }
            } else {
                OamReaderView { lu: cc, ..self.scan(pos, dist, oam) }
            }
        }
    }

    /// The source changes at `cc`: the copy is brought up to there and the
    /// position noted.
    #[verifier::opaque]
    pub open spec fn change(self, cc: u64, lc: LyCounter, oam: Seq<u8>) -> OamReaderView {
        let s = self.update(cc, lc, oam);
        let p = pos_cycles(s.lu, lc);
        OamReaderView { last_change: (if p > 80 { 80 } else { p }) as u8, ..s }
    }

    pub open spec fn wf(self) -> bool {
        &&& self.buf.len() == 80
        &&& self.lsbuf.len() == 40
        &&& self.ghost_slot.len() == 40
        &&& self.last_change <= 80 || self.last_change == 0xFF
        &&& self.lu < 4 * CLOCK_LIMIT
    }
}

impl View for OamReader {
    type V = OamReaderView;

    closed spec fn view(&self) -> OamReaderView {
        OamReaderView {
            buf: self.buf@,
            lsbuf: self.lsbuf@,
            lu: self.lu,
            last_change: self.last_change,
            large_src: self.large_src,
            cgb: self.cgb,
            src_disabled: self.src_disabled,
            ghost_pos: self.ghost_pos,
            ghost_slot: self.ghost_slot@,
        }
    }
}

impl Default for OamReader {
    fn default() -> (r: Self)
        ensures
            r@ == OamReaderView::fresh(),
    {
        let r = OamReader {
            buf: [0; 80],
            lsbuf: [false; 40],
            lu: 0,
            last_change: 0xFF,
            large_src: false,
            cgb: false,
            src_disabled: false,
            ghost_pos: (0xFF, 0xFF),
            ghost_slot: [false; 40],
        };
        assert(r@ =~= OamReaderView::fresh());
        r
    }
}

impl OamReader {
    /// Takes the object height from here on.
    pub fn set_large_src(&mut self, large: bool)
        ensures
            final(self)@ == (OamReaderView { large_src: large, ..old(self)@ }),
    {
        self.large_src = large;
    }

    pub fn set_cgb(&mut self, cgb: bool)
        ensures
            final(self)@ == (OamReaderView { cgb, ..old(self)@ }),
    {
        self.cgb = cgb;
    }

    /// Cuts OAM off, or connects it again.
    pub fn set_src_disabled(&mut self, disabled: bool)
        ensures
            final(self)@ == (OamReaderView { src_disabled: disabled, ..old(self)@ }),
    {
        self.src_disabled = disabled;
    }

    /// Declares the copy current up to `cc`.
    pub fn set_lu(&mut self, cc: u64)
        ensures
            final(self)@ == (OamReaderView { lu: cc, ..old(self)@ }),
    {
        self.lu = cc;
    }

    /// Nothing is left on the bus.
    pub fn clear_ghost(&mut self)
        ensures
            final(self)@ == (OamReaderView { ghost_pos: (0xFF, 0xFF), ..old(self)@ }),
    {
        self.ghost_pos = (0xFF, 0xFF);
    }

    pub fn src_disabled(&self) -> (r: bool)
        ensures
            r == self@.src_disabled,
    {
        self.src_disabled
    }

    /// Y and X of object `i`.
    pub fn position(&self, i: usize) -> (r: (u8, u8))
        requires
            i < 40,
        ensures
            r == (self@.buf[2 * i], self@.buf[2 * i + 1]),
    {
        (self.buf[2 * i], self.buf[2 * i + 1])
    }

    /// Whether object `i` was read while OAM was cut off.
    pub fn is_ghost(&self, i: usize) -> (r: bool)
        requires
            i < 40,
        ensures
            r == self@.ghost_slot[i as int],
    {
        self.ghost_slot[i]
    }

    pub fn changed(&self) -> (r: bool)
        ensures
            r == self@.changed(),
    {
        self.last_change != 0xFF
    }

    pub fn to_pos_cycles(cc: u64, lc: &LyCounter) -> (r: u32)
        requires
            cc < 4 * CLOCK_LIMIT,
            lc.time < 2 * CLOCK_LIMIT,
        ensures
            r == pos_cycles(cc, *lc),
            r < 456,
    {
        let span: u64 = lc.time.wrapping_sub(cc);
        let dots: i64 = if lc.ds { (span / 2) as i64 } else { as_signed(span) };
        let raw: i64 = LCD_CYCLES_PER_LINE as i64 - dots + 1;
        floor_mod(raw, LCD_CYCLES_PER_LINE)
    }

    pub fn reset(&mut self, oam: &[u8; 80], cgb: bool)
        ensures
            final(self)@ == old(self)@.reset(oam@, cgb),
    {
        self.cgb = cgb;
        self.large_src = false;
        self.src_disabled = false;
        self.ghost_pos = (0xFF, 0xFF);
        self.ghost_slot = [false; 40];
        self.lu = 0;
        self.last_change = 0xFF;
        self.lsbuf = [false; 40];
        self.buf = *oam;
        assert(self@ =~= old(self)@.reset(oam@, cgb));
    }

    pub fn enable_display(&mut self, cc: u64, ds: bool)
        requires
            cc < 2 * CLOCK_LIMIT,
        ensures
            final(self)@ == old(self)@.enable_display(cc, ds),
    {
        self.buf = [0; 80];
        self.lsbuf = [false; 40];
        self.ghost_pos = (0xFF, 0xFF);
        self.ghost_slot = [false; 40];
        self.lu = cc + (if ds { 160 } else { 80 }) + 1;
        self.last_change = 80;
        assert(self@ =~= old(self)@.enable_display(cc, ds));
    }

    pub fn capture_ghost(&mut self, line_has_fetches: bool)
        ensures
            final(self)@ == old(self)@.capture_ghost(line_has_fetches),
    {
        let cap: usize = if self.last_change > 80 { 80 } else { self.last_change as usize };
        if !(2 <= cap && cap < 80) && line_has_fetches {
            self.ghost_pos = (0xFF, 0xFF);
        } else {
            let p: usize = if cap >= 2 { (cap - 1) / 2 * 2 } else { 78 };
            self.ghost_pos = (self.buf[p], self.buf[p + 1]);
        }
        assert(self@ =~= old(self)@.capture_ghost(line_has_fetches));
    }

    fn refresh(&mut self, oam_pos: &[u8; 80])
        ensures
            final(self)@ == old(self)@.refreshed(oam_pos@),
    {
        let mut i: usize = 0;
        while i < 40
            invariant
                i <= 40,
                self.lu == old(self).lu,
                self.last_change == old(self).last_change,
                self.large_src == old(self).large_src,
                self.cgb == old(self).cgb,
                self.src_disabled == old(self).src_disabled,
                self.ghost_pos == old(self).ghost_pos,
                forall|k: int| 0 <= k < i ==> self.lsbuf@[k] == old(self).large_src,
                forall|k: int| 0 <= k < i ==> self.ghost_slot@[k] == old(self).src_disabled,
                forall|k: int|
                    0 <= k < 2 * i ==> #[trigger] self.buf@[k] == old(self)@.refreshed(
                        oam_pos@,
                    ).buf[k],
            decreases 40 - i,
        {
            self.lsbuf[i] = self.large_src;
            if self.src_disabled {
                self.buf[2 * i] = self.ghost_pos.0;
                self.buf[2 * i + 1] = self.ghost_pos.1;
                self.ghost_slot[i] = true;
            } else {
                self.buf[2 * i] = oam_pos[2 * i];
                self.buf[2 * i + 1] = oam_pos[2 * i + 1];
                self.ghost_slot[i] = false;
            }
            i += 1;
        }
        self.last_change = 0xFF;
        assert(self@ =~= old(self)@.refreshed(oam_pos@));
    }

    fn scan_one(&mut self, pos: u32, oam_pos: &[u8; 80]) -> (r: u32)
        requires
            pos <= 80,
        ensures
            final(self)@ == old(self)@.scan_one(pos as int, oam_pos@),
            r == OamReaderView::scan_next(pos as int),
            r <= 80,
    {
        if pos % 2 == 0 {
            let p: usize = if pos == OAM_POS_CYCLES { 0 } else { pos as usize };
            if self.cgb {
                self.lsbuf[p / 2] = self.large_src;
            }
            let (y, x): (u8, u8) = if self.src_disabled {
                (self.ghost_pos.0, self.ghost_pos.1)
            } else {
                (oam_pos[p], oam_pos[p + 1])
            };
            self.ghost_slot[p / 2] = self.src_disabled;
            self.buf[p] = y;
            self.buf[p + 1] = x;
            assert(self@ =~= old(self)@.scan_one(pos as int, oam_pos@));
            p as u32 + 1
        } else {
            let p: usize = pos as usize;
            let cur = self.lsbuf[p / 2];
            self.lsbuf[p / 2] = (cur && self.cgb) || self.large_src;
            assert(self@ =~= old(self)@.scan_one(pos as int, oam_pos@));
            pos + 1
        }
    }

    pub fn update(&mut self, cc: u64, lc: &LyCounter, oam_pos: &[u8; 80])
        requires
            old(self)@.wf(),
            cc < 2 * CLOCK_LIMIT,
            lc.time < 2 * CLOCK_LIMIT,
        ensures
            final(self)@ == old(self)@.update(cc, *lc, oam_pos@),
            final(self)@.wf(),
    {
        reveal(OamReaderView::update);
        if cc <= self.lu {
            return;
        }
        if self.changed() && to_dots(cc - self.lu, lc.ds) >= LCD_CYCLES_PER_LINE as u64 {
            self.refresh(oam_pos);
            self.lu = cc;
            return;
        }
        if self.changed() {
            let lulc: u32 = Self::to_pos_cycles(self.lu, lc);
            let mut pos: u32 = if lulc > 80 { 80 } else { lulc };
            let cclc: u32 = Self::to_pos_cycles(cc, lc);
            let end: u32 = if cclc > 80 { 80 } else { cclc };
            let mut distance: u32 = end + (if cclc < lulc { 80 } else { 0 }) - pos;
            let lcg: u32 = self.last_change as u32;
            let target: u32 = lcg + (if lcg <= pos { 80 } else { 0 }) - pos;
            if target <= distance {
                distance = target;
                self.last_change = 0xFF;
            }
            let ghost start = self@;
            let ghost pos0 = pos as int;
            let mut d: u32 = distance;
            while d > 0
                invariant
                    pos <= 80,
                    self@.wf(),
                    self@.last_change == start.last_change,
                    self@.lu == start.lu,
                    self@.scan(pos as int, d as int, oam_pos@) == start.scan(
                        pos0,
                        distance as int,
                        oam_pos@,
                    ),
                decreases d,
            {
                d -= 1;
                pos = self.scan_one(pos, oam_pos);
            }
            proof {
                lemma_scan_frame(old(self)@, start, pos0, distance as int, oam_pos@);
            }
        }
        self.lu = cc;
    }

    pub fn change(&mut self, cc: u64, lc: &LyCounter, oam_pos: &[u8; 80])
        requires
            old(self)@.wf(),
            cc < 2 * CLOCK_LIMIT,
            lc.time < 2 * CLOCK_LIMIT,
        ensures
            final(self)@ == old(self)@.change(cc, *lc, oam_pos@),
            final(self)@.wf(),
    {
        reveal(OamReaderView::change);
        self.update(cc, lc, oam_pos);
        let p: u32 = Self::to_pos_cycles(self.lu, lc);
        self.last_change = (if p > 80 { 80 } else { p }) as u8;
    }
}

/// The scan neither reads nor writes the change position.
proof fn lemma_scan_frame(a: OamReaderView, b: OamReaderView, pos: int, n: int, oam: Seq<u8>)
    requires
        b == (OamReaderView { last_change: b.last_change, ..a }),
    ensures
        b.scan(pos, n, oam) == (OamReaderView {
            last_change: b.last_change,
            ..a.scan(pos, n, oam)
        }),
    decreases n,
{
    if n > 0 {
        let a1 = a.scan_one(pos, oam);
        let b1 = b.scan_one(pos, oam);
        lemma_scan_frame(a1, b1, OamReaderView::scan_next(pos), n - 1, oam);
    }
}

/// Once the copy is current, time passing alone leaves it as it is.
pub proof fn law_unchanged_source_keeps_copy(s: OamReaderView, cc: u64, lc: LyCounter, oam: Seq<u8>)
    requires
        !s.changed(),
    ensures
        s.update(cc, lc, oam).buf == s.buf,
        s.update(cc, lc, oam).lsbuf == s.lsbuf,
        s.update(cc, lc, oam).ghost_slot == s.ghost_slot,
{
    reveal(OamReaderView::update);
}

/// A full line after a change the copy is again what OAM holds.
pub proof fn law_copy_current_after_a_line(s: OamReaderView, cc: u64, lc: LyCounter, oam: Seq<u8>)
    requires
        oam.len() == 80,
        s.changed(),
        !s.src_disabled,
        cc > s.lu,
        cycles_to_dots(cc - s.lu, lc.ds) >= LCD_CYCLES_PER_LINE,
    ensures
        s.update(cc, lc, oam).buf == oam,
        !s.update(cc, lc, oam).changed(),
{
    reveal(OamReaderView::update);
    assert(s.update(cc, lc, oam).buf =~= oam);
}


/// A scan's copy of OAM in its parts.
pub struct OamReaderParts {
    pub buf: [u8; 80],
    pub lsbuf: [bool; 40],
    pub lu: u64,
    pub last_change: u8,
    pub large_src: bool,
    pub cgb: bool,
    pub src_disabled: bool,
    pub ghost_pos: (u8, u8),
    pub ghost_slot: [bool; 40],
}

impl View for OamReaderParts {
    type V = OamReaderView;

    open spec fn view(&self) -> OamReaderView {
        OamReaderView {
            buf: self.buf@,
            lsbuf: self.lsbuf@,
            lu: self.lu,
            last_change: self.last_change,
            large_src: self.large_src,
            cgb: self.cgb,
            src_disabled: self.src_disabled,
            ghost_pos: self.ghost_pos,
            ghost_slot: self.ghost_slot@,
        }
    }
}

impl OamReader {
    /// Takes the value apart.
    pub fn into_parts(self) -> (r: OamReaderParts)
        ensures
            r@ == self@,
    {
        OamReaderParts {
            buf: self.buf,
            lsbuf: self.lsbuf,
            lu: self.lu,
            last_change: self.last_change,
            large_src: self.large_src,
            cgb: self.cgb,
            src_disabled: self.src_disabled,
            ghost_pos: self.ghost_pos,
            ghost_slot: self.ghost_slot,
        }
    }

    /// Puts the value together again.
    pub fn from_parts(parts: OamReaderParts) -> (r: Self)
        ensures
            r@ == parts@,
    {
        OamReader {
            buf: parts.buf,
            lsbuf: parts.lsbuf,
            lu: parts.lu,
            last_change: parts.last_change,
            large_src: parts.large_src,
            cgb: parts.cgb,
            src_disabled: parts.src_disabled,
            ghost_pos: parts.ghost_pos,
            ghost_slot: parts.ghost_slot,
        }
    }

    pub fn is_well_formed(&self) -> (r: bool)
        ensures
            r == self@.wf(),
    {
        (self.last_change <= 80 || self.last_change == 0xFF) && self.lu < 4 * CLOCK_LIMIT
    }
}

} // verus!
