//! Counts how often watched registers are written while a line is being drawn.

use vstd::prelude::*;

verus! {

/// Registers whose mid-line writes change what the rest of the line shows.
#[derive(Debug, Clone, Copy, PartialEq, Eq, Structural)]
pub enum WatchedReg {
    Lcdc,
    Scy,
    Scx,
    Bgp,
    Obp0,
    Obp1,
    Wx,
    Bcpd,
    Ocpd,
}

/// The register's address on the bus.
pub open spec fn watched_addr(reg: WatchedReg) -> u16 {
    match reg {
        WatchedReg::Lcdc => 0xFF40,
        WatchedReg::Scy => 0xFF42,
        WatchedReg::Scx => 0xFF43,
        WatchedReg::Bgp => 0xFF47,
        WatchedReg::Obp0 => 0xFF48,
        WatchedReg::Obp1 => 0xFF49,
        WatchedReg::Wx => 0xFF4B,
        WatchedReg::Bcpd => 0xFF69,
        WatchedReg::Ocpd => 0xFF6B,
    }
}

impl WatchedReg {
    pub const ALL: [WatchedReg; 9] = [
        WatchedReg::Lcdc,
        WatchedReg::Scy,
        WatchedReg::Scx,
        WatchedReg::Bgp,
        WatchedReg::Obp0,
        WatchedReg::Obp1,
        WatchedReg::Wx,
        WatchedReg::Bcpd,
        WatchedReg::Ocpd,
    ];

    /// The watched register at `addr`, if there is one.
    pub fn from_addr(addr: u16) -> (r: Option<WatchedReg>)
        ensures
            r matches Some(reg) ==> watched_addr(reg) == addr,
            r is None ==> forall|reg: WatchedReg| watched_addr(reg) != addr,
    {
        Some(
            match addr {
                0xFF40 => WatchedReg::Lcdc,
                0xFF42 => WatchedReg::Scy,
                0xFF43 => WatchedReg::Scx,
                0xFF47 => WatchedReg::Bgp,
                0xFF48 => WatchedReg::Obp0,
                0xFF49 => WatchedReg::Obp1,
                0xFF4B => WatchedReg::Wx,
                0xFF69 => WatchedReg::Bcpd,
                0xFF6B => WatchedReg::Ocpd,
                _ => {
                    return None;
                },
            },
        )
    }

    /// Position of the register in the per-register counters.
    pub open spec fn spec_idx(self) -> int {
        match self {
            WatchedReg::Lcdc => 0,
            WatchedReg::Scy => 1,
            WatchedReg::Scx => 2,
            WatchedReg::Bgp => 3,
            WatchedReg::Obp0 => 4,
            WatchedReg::Obp1 => 5,
            WatchedReg::Wx => 6,
            WatchedReg::Bcpd => 7,
            WatchedReg::Ocpd => 8,
        }
    }

    fn idx(self) -> (r: usize)
        ensures
            r == self.spec_idx(),
    {
        match self {
            WatchedReg::Lcdc => 0,
            WatchedReg::Scy => 1,
            WatchedReg::Scx => 2,
            WatchedReg::Bgp => 3,
            WatchedReg::Obp0 => 4,
            WatchedReg::Obp1 => 5,
            WatchedReg::Wx => 6,
            WatchedReg::Bcpd => 7,
            WatchedReg::Ocpd => 8,
        }
    }

    /// The register's usual name.
    pub open spec fn spec_name(self) -> Seq<char> {
        match self {
            WatchedReg::Lcdc => "LCDC"@,
            WatchedReg::Scy => "SCY"@,
            WatchedReg::Scx => "SCX"@,
            WatchedReg::Bgp => "BGP"@,
            WatchedReg::Obp0 => "OBP0"@,
            WatchedReg::Obp1 => "OBP1"@,
            WatchedReg::Wx => "WX"@,
            WatchedReg::Bcpd => "BCPD"@,
            WatchedReg::Ocpd => "OCPD"@,
        }
    }

    pub fn name(self) -> (r: &'static str)
        ensures
            r@ == self.spec_name(),
    {
        match self {
            WatchedReg::Lcdc => "LCDC",
            WatchedReg::Scy => "SCY",
            WatchedReg::Scx => "SCX",
            WatchedReg::Bgp => "BGP",
            WatchedReg::Obp0 => "OBP0",
            WatchedReg::Obp1 => "OBP1",
            WatchedReg::Wx => "WX",
            WatchedReg::Bcpd => "BCPD",
            WatchedReg::Ocpd => "OCPD",
        }
    }
}

/// Running totals over the frames observed so far, and the marks of the frame
/// in progress. Purely an observer: nothing in the picture depends on it.
#[derive(Debug, Clone)]
pub struct DirtyLineProbe {
    /// Lines of the current frame that took an unblocked write.
    pub line_dirty: [bool; 144],
    /// The same, by line and register.
    pub line_reg_dirty: [[bool; 9]; 144],
    /// Lines rendered, over all finished frames.
    pub total_visible_lines: u64,
    /// Rendered lines that took a watched write, over all finished frames.
    pub total_dirty_lines: u64,
    /// Lines on which the register was written, by register.
    pub per_reg_dirty_lines: [u64; 9],
    /// Unblocked writes, by register.
    pub per_reg_events: [u64; 9],
    /// Palette writes that the mode-3 lock swallowed.
    pub palette_blocked_events: u64,
    /// Frames observed: one for each call of `end_frame`.
    pub frames: u64,
    /// Lines of the current frame that were rendered.
    pub line_seen: [bool; 144],
}

/// What a probe holds.
#[verifier::ext_equal]
pub struct ProbeView {
    /// Lines of the current frame that were rendered.
    pub seen: Seq<bool>,
    /// Lines of the current frame that took an unblocked write.
    pub dirty: Seq<bool>,
    /// The same, by line and register.
    pub reg_dirty: Seq<Seq<bool>>,
    pub visible_lines: int,
    pub dirty_lines: int,
    pub reg_dirty_lines: Seq<u64>,
    pub reg_events: Seq<u64>,
    pub blocked: int,
    pub frames: int,
}

/// Number of lines below `n` for which `seen` holds.
pub open spec fn count_seen(seen: Seq<bool>, n: int) -> int
    decreases n,
{
    if n <= 0 {
        0
    } else {
        count_seen(seen, n - 1) + if seen[n - 1] { 1int } else { 0 }
    }
}

/// Number of lines below `n` that are both seen and dirty.
pub open spec fn count_seen_dirty(seen: Seq<bool>, dirty: Seq<bool>, n: int) -> int
    decreases n,
{
    if n <= 0 {
        0
    } else {
        count_seen_dirty(seen, dirty, n - 1) + if seen[n - 1] && dirty[n - 1] { 1int } else { 0 }
    }
}

impl ProbeView {
    /// One mark per line, and per line and register.
    pub open spec fn wf(self) -> bool {
        &&& self.seen.len() == 144
        &&& self.dirty.len() == 144
        &&& self.reg_dirty.len() == 144
        &&& forall|i: int| 0 <= i < 144 ==> (#[trigger] self.reg_dirty[i]).len() == 9
        &&& self.reg_dirty_lines.len() == 9
        &&& self.reg_events.len() == 9
    }

    /// A fresh probe.
    pub open spec fn fresh() -> ProbeView {
        ProbeView {
            seen: Seq::new(144, |i: int| false),
            dirty: Seq::new(144, |i: int| false),
            reg_dirty: Seq::new(144, |i: int| Seq::new(9, |j: int| false)),
            visible_lines: 0,
            dirty_lines: 0,
            reg_dirty_lines: Seq::new(9, |i: int| 0u64),
            reg_events: Seq::new(9, |i: int| 0u64),
            blocked: 0,
            frames: 0,
        }
    }

    pub open spec fn mark(self, ly: u8) -> ProbeView {
        if ly < 144 {
            ProbeView { seen: self.seen.update(ly as int, true), ..self }
        } else {
            self
        }
    }

    /// The effect of one write: nothing outside mode 3; a blocked write is
    /// counted and marks the line as rendered, but never dirties it.
    pub open spec fn write(self, reg: WatchedReg, ly: u8, visible: bool, blocked: bool) -> ProbeView {
        let r = reg.spec_idx();
        let l = ly as int;
        let m = self.mark(ly);
        if !visible {
            self
        } else if blocked {
            ProbeView { blocked: self.blocked + 1, ..m }
        } else if ly >= 144 {
            self
        } else {
            ProbeView {
                dirty: self.dirty.update(l, true),
                reg_dirty: self.reg_dirty.update(l, self.reg_dirty[l].update(r, true)),
                reg_dirty_lines: if self.reg_dirty[l][r] {
                    self.reg_dirty_lines
                } else {
                    self.reg_dirty_lines.update(r, (self.reg_dirty_lines[r] + 1) as u64)
                },
                reg_events: self.reg_events.update(r, (self.reg_events[r] + 1) as u64),
                ..m
            }
        }
    }

    /// The frame is counted, its lines go into the totals and its marks are
    /// cleared.
    pub open spec fn finish(self) -> ProbeView {
        ProbeView {
            seen: ProbeView::fresh().seen,
            dirty: ProbeView::fresh().dirty,
            reg_dirty: ProbeView::fresh().reg_dirty,
            visible_lines: self.visible_lines + count_seen(self.seen, 144),
            dirty_lines: self.dirty_lines + count_seen_dirty(self.seen, self.dirty, 144),
            frames: self.frames + 1,
            ..self
        }
    }
}

impl View for DirtyLineProbe {
    type V = ProbeView;

    open spec fn view(&self) -> ProbeView {
        ProbeView {
            seen: self.line_seen@,
            dirty: self.line_dirty@,
            reg_dirty: Seq::new(144, |i: int| self.line_reg_dirty[i]@),
            visible_lines: self.total_visible_lines as int,
            dirty_lines: self.total_dirty_lines as int,
            reg_dirty_lines: self.per_reg_dirty_lines@,
            reg_events: self.per_reg_events@,
            blocked: self.palette_blocked_events as int,
            frames: self.frames as int,
        }
    }
}

impl Default for DirtyLineProbe {
    fn default() -> (r: Self)
        ensures
            r@ == ProbeView::fresh(),
            r@.wf(),
    {
        let r = DirtyLineProbe {
            line_dirty: [false; 144],
            line_reg_dirty: [[false; 9]; 144],
            total_visible_lines: 0,
            total_dirty_lines: 0,
            per_reg_dirty_lines: [0; 9],
            per_reg_events: [0; 9],
            palette_blocked_events: 0,
            frames: 0,
            line_seen: [false; 144],
        };
        assert(r@ =~~= ProbeView::fresh());
        r
    }
}

impl DirtyLineProbe {
    /// Another frame still fits in the frame totals.
    pub open spec fn has_room(&self) -> bool {
        &&& self@.frames < u64::MAX
        &&& self@.visible_lines <= u64::MAX - 144
        &&& self@.dirty_lines <= u64::MAX - 144
    }

    pub fn new() -> (r: Self)
        ensures
            r@ == ProbeView::fresh(),
            r@.wf(),
    {
        Self::default()
    }

    /// Notes that line `ly` was drawn; lines below the screen are ignored.
    pub fn mark_line_rendered(&mut self, ly: u8)
        ensures
            final(self)@ == old(self)@.mark(ly),
            final(self)@.wf(),
    {
        if (ly as usize) < 144 {
            self.line_seen[ly as usize] = true;
        }
        assert(self@ =~~= old(self)@.mark(ly));
    }

    /// Notes a write to `reg` on line `ly`.
    pub fn record_write(&mut self, reg: WatchedReg, ly: u8, mode3_visible: bool, blocked: bool)
        requires
            mode3_visible && blocked ==> old(self)@.blocked < u64::MAX,
            mode3_visible && !blocked && ly < 144 ==> old(self)@.reg_events[reg.spec_idx()]
                < u64::MAX && old(self)@.reg_dirty_lines[reg.spec_idx()] < u64::MAX,
        ensures
            final(self)@ == old(self)@.write(reg, ly, mode3_visible, blocked),
            final(self)@.wf(),
    {
        if !mode3_visible {
            return;
        }
        self.mark_line_rendered(ly);
        let ri: usize = reg.idx();
        if blocked {
            self.palette_blocked_events += 1;
            return;
        }
        let li: usize = ly as usize;
        if li >= 144 {
            return;
        }
        self.per_reg_events[ri] = self.per_reg_events[ri] + 1;
        if !self.line_reg_dirty[li][ri] {
            self.line_reg_dirty[li][ri] = true;
            self.per_reg_dirty_lines[ri] = self.per_reg_dirty_lines[ri] + 1;
        }
        self.line_dirty[li] = true;
        assert(self@ =~~= old(self)@.write(reg, ly, mode3_visible, blocked));
    }

    /// Counts the frame, folds its marks into the totals and clears them.
    pub fn end_frame(&mut self)
        requires
            old(self).has_room(),
        ensures
            final(self)@ == old(self)@.finish(),
            final(self)@.wf(),
    {
        let mut ly: usize = 0;
        while ly < 144
            invariant
                ly <= 144,
                old(self).has_room(),
                0 <= count_seen_dirty(old(self)@.seen, old(self)@.dirty, ly as int) <= ly,
                0 <= count_seen(old(self)@.seen, ly as int) <= ly,
                self.total_visible_lines == old(self)@.visible_lines + count_seen(
                    old(self)@.seen,
                    ly as int,
                ),
                self.total_dirty_lines == old(self)@.dirty_lines + count_seen_dirty(
                    old(self)@.seen,
                    old(self)@.dirty,
                    ly as int,
                ),
                self.frames == old(self).frames,
                self.per_reg_dirty_lines == old(self).per_reg_dirty_lines,
                self.per_reg_events == old(self).per_reg_events,
                self.palette_blocked_events == old(self).palette_blocked_events,
                forall|i: int| ly <= i < 144 ==> self.line_seen[i] == old(self).line_seen[i],
                forall|i: int| ly <= i < 144 ==> self.line_dirty[i] == old(self).line_dirty[i],
                forall|i: int| 0 <= i < ly ==> !self.line_seen[i],
                forall|i: int| 0 <= i < ly ==> !self.line_dirty[i],
                forall|i: int, j: int|
                    0 <= i < ly && 0 <= j < 9 ==> !(#[trigger] self.line_reg_dirty[i][j]),
            decreases 144 - ly,
        {
            if self.line_seen[ly] {
                self.total_visible_lines += 1;
                if self.line_dirty[ly] {
                    self.total_dirty_lines += 1;
                }
            }
            self.line_dirty[ly] = false;
            self.line_seen[ly] = false;
            self.line_reg_dirty[ly] = [false; 9];
            ly += 1;
        }
        self.frames += 1;
        assert(self@ =~~= old(self)@.finish());
    }

    /// Whether any finished frame held a dirty line.
    pub fn ever_dirty(&self) -> (r: bool)
        ensures
            r == (self@.dirty_lines > 0),
    {
        self.total_dirty_lines > 0
    }
}

/// The marks of any probe cover every line and register.
pub proof fn law_probe_is_well_formed(p: DirtyLineProbe)
    ensures
        p@.wf(),
{
}

/// A watched register is found again under its own address.
pub proof fn law_watched_addresses_are_distinct(a: WatchedReg, b: WatchedReg)
    requires
        watched_addr(a) == watched_addr(b),
    ensures
        a == b,
{
}

/// A write that the palette lock blocked never makes a line dirty, and a write
/// outside mode 3 leaves the probe as it was.
pub proof fn law_blocked_writes_dirty_nothing(p: ProbeView, reg: WatchedReg, ly: u8)
    ensures
        p.write(reg, ly, true, true).dirty == p.dirty,
        p.write(reg, ly, true, true).reg_dirty == p.reg_dirty,
        p.write(reg, ly, true, true).reg_dirty_lines == p.reg_dirty_lines,
        p.write(reg, ly, false, true) == p,
        p.write(reg, ly, false, false) == p,
{
}

/// A second write to the same register on the same line counts as an event but
/// not as another dirty line.
pub proof fn law_line_counts_once_per_register(p: ProbeView, reg: WatchedReg, ly: u8)
    requires
        p.wf(),
        ly < 144,
    ensures
        ({
            let once = p.write(reg, ly, true, false);
            let twice = once.write(reg, ly, true, false);
            twice.reg_dirty_lines == once.reg_dirty_lines && twice.dirty == once.dirty
                && twice.reg_dirty == once.reg_dirty && twice.seen == once.seen
        }),
{
    let once = p.write(reg, ly, true, false);
    let twice = once.write(reg, ly, true, false);
    let r = reg.spec_idx();
    assert(once.reg_dirty[ly as int] =~= p.reg_dirty[ly as int].update(r, true));
    assert(twice.dirty =~= once.dirty);
    assert(twice.seen =~= once.seen);
    assert(once.reg_dirty[ly as int].update(r, true) =~= once.reg_dirty[ly as int]);
    assert(twice.reg_dirty =~= once.reg_dirty);
}

/// Every dirty line of a finished frame is one of its rendered lines.
pub proof fn law_dirty_lines_are_visible(seen: Seq<bool>, dirty: Seq<bool>, n: int)
    ensures
        0 <= count_seen_dirty(seen, dirty, n) <= count_seen(seen, n),
    decreases n,
{
    if n > 0 {
        law_dirty_lines_are_visible(seen, dirty, n - 1);
    }
}

} // verus!
