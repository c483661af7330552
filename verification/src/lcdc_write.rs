//! What an LCDC write does at once, and the writes that take their time.

use vstd::prelude::*;

use crate::arith::{clamp_i32, iclamp, imin};
use crate::glitch::take_bits;
use crate::history::HistView;
use crate::journal::{JournalView, PendingLcdcEvent, PendingLcdcEventKind};
use crate::lcdc::{
    flag_differs, select_bits_differ, OBJEN_APPLY_DOTS, OBJEN_APPLY_DOTS_CGB, OBJSIZE_APPLY_DOTS,
    WG_TRANSITION_DELAY,
};
use crate::mmio::Mmio;
use crate::objects::{SpriteFetchPhase, SpriteFetchRec};
use crate::regs::{lcdc_has, LCDCFlags, CLOCK_LIMIT};
use crate::state::{LcdcState, Objs, Ppu, PpuView, State, TdsCommit, WeCommit, Win};

verus! {

impl PpuView {
    /// The LCD is on and stays on.
    pub open spec fn display_stays(self, value: u8) -> bool {
        self.lcdc_has(LCDCFlags::DisplayEnable) && lcdc_has(value, LCDCFlags::DisplayEnable)
    }

    /// Drawing goes on across the write.
    pub open spec fn write_hits_line(self, value: u8) -> bool {
        self.display_stays(value) && self.state == State::PixelTransfer
    }

    /// Without CGB mode, a write to a select bit is noted by its bus clock, and
    /// the tile in flight is read again.
    #[verifier::opaque]
    pub open spec fn lw_journal(self, value: u8, m: Mmio) -> PpuView {
        if !m.cgb_features && self.write_hits_line(value) && select_bits_differ(
            self.lcdc.reg,
            value,
        ) {
            let s = PpuView {
                journal: JournalView {
                    wg_hist: self.journal.wg_hist.push(
                        (
                            (self.write_cc(false) + WG_TRANSITION_DELAY) as u64,
                            self.lcdc.reg,
                            value,
                        ),
                    ),
                    ..self.journal
                },
                ..self
            };
            PpuView { fetcher: s.bg_retro_repair(m), ..s }
        } else {
            self
        }
    }

    /// Switching the window off while its tile is in flight suppresses the
    /// stray pixel for the line, on DMG hardware.
    #[verifier::opaque]
    pub open spec fn lw_suppress(self, value: u8, m: Mmio) -> PpuView {
        PpuView {
            win: Win {
                we_insert_suppressed: self.win.we_insert_suppressed || (!m.is_cgb()
                    && self.display_stays(value) && self.lcdc_has(
                    LCDCFlags::WindowDisplayEnable,
                ) && !lcdc_has(value, LCDCFlags::WindowDisplayEnable)
                    && self.win.win_being_fetched),
                ..self.win
            },
            ..self
        }
    }

    /// An object is being fetched, or is about to be.
    pub open spec fn sprite_active(self) -> bool {
        self.objs.sprite_fetch_stall > 0 || self.unfetched_sprite_at(self.x as int)
            || self.unfetched_sprite_at(self.x + 1)
    }

    /// Columns from the drawing position to where a background switch shows.
    pub open spec fn bgen_lead(self, m: Mmio) -> int {
        let compat = self.is_cgb_compat_dmg(m);
        let stall = if m.cgb_features {
            2
        } else if compat && self.objs.sprite_fetch_stall > 0 {
            3 - self.objs.sprite_fetch_stall
        } else if self.objs.sprite_fetch_stall > 0 || self.unfetched_sprite_at(self.x as int) {
            0
        } else if self.unfetched_sprite_at(self.x + 1) {
            1
        } else {
            2
        };
        let window = self.win.window_started_this_line || self.win.win_draw_start
            || self.window_y_active(m);
        stall + (if compat && !self.sprite_active() { 1int } else { 0 }) + if window {
            2int
        } else {
            0
        }
    }

    /// A background switch is noted by the column it shows from.
    #[verifier::opaque]
    pub open spec fn lw_bgen(self, value: u8, m: Mmio) -> PpuView {
        if self.write_hits_line(value) && flag_differs(
            self.lcdc.reg,
            value,
            LCDCFlags::BGDisplay,
        ) {
            PpuView {
                hist: HistView {
                    bgen: self.hist.bgen.push(
                        (
                            iclamp(self.x + self.bgen_lead(m), 0, 160) as u64,
                            lcdc_has(value, LCDCFlags::BGDisplay),
                        ),
                    ),
                    ..self.hist
                },
                ..self
            }
        } else {
            self
        }
    }

    /// The object fetch that a switch-off breaks off: the one in progress,
    /// unless it ends on this dot or the next.
    pub open spec fn aborted_fetch(self) -> Option<SpriteFetchRec> {
        let i = self.objs.next_sprite_fetch_index - 1;
        match self.line.rec(i) {
            Some(r) if self.objs.sprite_fetch_stall > 0 && i >= 0 && r.phase
                == SpriteFetchPhase::Fetched && r.arm_tick + r.penalty > self.ticks + 1 => Some(
                r,
            ),
            _ => None,
        }
    }

    /// An object switch is noted by its dot; switching off can break off a
    /// fetch, on DMG hardware.
    #[verifier::opaque]
    pub open spec fn lw_objen(self, value: u8, m: Mmio) -> PpuView {
        let on = lcdc_has(value, LCDCFlags::SpriteDisplayEnable);
        if !m.cgb_features && self.write_hits_line(value) && flag_differs(
            self.lcdc.reg,
            value,
            LCDCFlags::SpriteDisplayEnable,
        ) {
            let dots = if m.is_cgb() { OBJEN_APPLY_DOTS_CGB } else { OBJEN_APPLY_DOTS };
            let s = PpuView {
                hist: HistView {
                    objen: self.hist.objen.push(((self.ticks + dots) as u128, on)),
                    ..self.hist
                },
                ..self
            };
            match self.aborted_fetch() {
                Some(r) if !m.is_cgb() && !on => PpuView {
                    line: self.line.with_rec(
                        self.objs.next_sprite_fetch_index - 1,
                        SpriteFetchRec { phase: SpriteFetchPhase::Aborted, ..r },
                    ),
                    objs: Objs {
                        sprite_fetch_stall: imin(self.objs.sprite_fetch_stall as int, 1) as u8,
                        ..self.objs
                    },
                    ..s
                },
                _ => s,
            }
        } else {
            self
        }
    }

    /// A change of the objects' height is noted by its dot.
    #[verifier::opaque]
    pub open spec fn lw_objsize(self, value: u8, m: Mmio) -> PpuView {
        if !m.cgb_features && self.write_hits_line(value) && flag_differs(
            self.lcdc.reg,
            value,
            LCDCFlags::SpriteSize,
        ) {
            PpuView {
                hist: HistView {
                    objsize: self.hist.objsize.push(
                        (
                            (self.ticks + OBJSIZE_APPLY_DOTS) as u128,
                            lcdc_has(value, LCDCFlags::SpriteSize),
                        ),
                    ),
                    ..self.hist
                },
                ..self
            }
        } else {
            self
        }
    }

    /// During the scan of a CGB a change of height reaches it on its own
    /// clock; making objects small takes two cycles longer at single speed.
    #[verifier::opaque]
    pub open spec fn lw_scan_size(self, value: u8, m: Mmio) -> PpuView {
        let ds = m.double_speed;
        let large = lcdc_has(value, LCDCFlags::SpriteSize);
        let off = if !ds && !large { 4int } else { 2 };
        if self.display_stays(value) && self.state == State::OAMSearch && m.cgb_features
            && flag_differs(self.lcdc.reg, value, LCDCFlags::SpriteSize) {
            PpuView {
                objs: Objs {
                    objsize_prev_large: self.objsize_large_at_cc(self.write_cc(ds) as u64),
                    objsize_new_large: large,
                    objsize_apply_cc: (self.write_cc(ds) + off) as u64,
                    ..self.objs
                },
                ..self
            }
        } else {
            self
        }
    }

    /// The read that a falling tile-data-select bit hits on CGB at single
    /// speed, by clock and fetch step.
    pub open spec fn tidxtd_target(self) -> Option<(u64, u8)> {
        let step = self.fetcher.substep();
        if step == 1 || step == 2 {
            Some(((self.clk.abs_cc + 2) as u64, step))
        } else if step == 3 && self.clk.abs_cc % 2 == 1 {
            Some(((self.clk.abs_cc + 8) as u64, 2u8))
        } else {
            None
        }
    }

    /// A tile-data-select write during drawing shows on its own clock.
    #[verifier::opaque]
    pub open spec fn lw_tds(self, value: u8, m: Mmio) -> PpuView {
        let tds = LCDCFlags::BGWindowTileDataSelect;
        if self.state == State::PixelTransfer && flag_differs(self.lcdc.reg, value, tds) {
            PpuView {
                lcdc: LcdcState {
                    lcdc_b4_exact: Some(
                        TdsCommit {
                            cc: (self.write_cc(m.double_speed) + 2) as u64,
                            new_val: value,
                            old_val: self.lcdc.reg,
                        },
                    ),
                    ..self.lcdc
                },
                journal: match self.tidxtd_target() {
                    Some(t) if self.lcdc_has(tds) && !m.double_speed => JournalView {
                        tidxtd: self.journal.tidxtd.push(t),
                        ..self.journal
                    },
                    _ => self.journal,
                },
                ..self
            }
        } else {
            self
        }
    }

    /// A window-enable write is noted for the comparison of WY and LY.
    #[verifier::opaque]
    pub open spec fn lw_we(self, value: u8, m: Mmio) -> PpuView {
        if flag_differs(self.lcdc.reg, value, LCDCFlags::WindowDisplayEnable) {
            PpuView {
                lcdc: LcdcState {
                    we_win_bit_exact: Some(
                        WeCommit {
                            cc: (self.write_cc(m.double_speed) + if m.double_speed {
                                4int
                            } else {
                                3
                            }) as u64,
                            new_bit: lcdc_has(value, LCDCFlags::WindowDisplayEnable),
                            old_bit: self.lcdc_has(LCDCFlags::WindowDisplayEnable),
                        },
                    ),
                    ..self.lcdc
                },
                ..self
            }
        } else {
            self
        }
    }

    /// In CGB mode the tile-data-select bit becomes visible one cycle after
    /// the write and the rest two cycles after it.
    pub open spec fn lw_queue(self, value: u8) -> PpuView {
        PpuView {
            pending: self.pending.push(
                PendingLcdcEvent {
                    cycles_remaining: 1,
                    base_value: self.lcdc.reg,
                    value,
                    kind: PendingLcdcEventKind::TileDataSelectOnly,
                },
            ).push(
                PendingLcdcEvent {
                    cycles_remaining: 2,
                    base_value: self.lcdc.reg,
                    value,
                    kind: PendingLcdcEventKind::Full,
                },
            ),
            ..self
        }
    }

    /// What a write leaves in the line's records.
    pub open spec fn lw_records(self, value: u8, m: Mmio) -> PpuView {
        self.lw_journal(value, m).lw_suppress(value, m).lw_bgen(value, m).lw_objen(
            value,
            m,
        ).lw_objsize(value, m).lw_scan_size(value, m)
    }

    /// A CPU write to LCDC. In CGB mode with the LCD staying on it becomes
    /// visible in two steps, otherwise at once.
    pub open spec fn handle_lcdc_write(self, value: u8, m: Mmio) -> PpuView {
        let s = self.lw_records(value, m);
        if m.cgb_features && self.display_stays(value) {
            s.lw_tds(value, m).lw_we(value, m).lw_queue(value)
        } else {
            PpuView { pending: Seq::empty(), ..s }.set_lcdc_visible(
                value,
                m.cgb_features,
                m.double_speed,
            )
        }
    }

    /// A queued write has come due.
    pub open spec fn apply_lcdc_event(self, e: PendingLcdcEvent, m: Mmio) -> PpuView {
        match e.kind {
            PendingLcdcEventKind::TileDataSelectOnly => {
                let v = take_bits(
                    e.base_value,
                    e.value,
                    LCDCFlags::BGWindowTileDataSelect.mask(),
                );
                let s = self.set_lcdc_visible(v, m.cgb_features, m.double_speed);
                PpuView { clk: s.clk.fast_span_invalid(), ..s }
            },
            PendingLcdcEventKind::Full => {
                let s = self.set_lcdc_visible(e.value, m.cgb_features, m.double_speed);
                PpuView {
                    lcdc: LcdcState { lcdc_b4_exact: None, ..s.lcdc },
                    clk: s.clk.fast_span_invalid(),
                    ..s
                }
            },
        }
    }

    /// The queue counts down by a cycle from position `i` on; what comes due
    /// leaves it and becomes visible, in order.
    pub open spec fn lcdc_events_from(self, m: Mmio, i: int) -> PpuView
        decreases self.pending.len() - i,
    {
        if i < 0 || i >= self.pending.len() {
            self
        } else {
            let e = self.pending[i];
            let left = if e.cycles_remaining > 0 { (e.cycles_remaining - 1) as u32 } else { 0 };
            if left == 0 {
                let rest = self.pending.remove(i);
                let s = PpuView { pending: rest, ..self }.apply_lcdc_event(e, m);
                PpuView { pending: rest, ..s }.lcdc_events_from(m, i)
            } else {
                PpuView {
                    pending: self.pending.update(
                        i,
                        PendingLcdcEvent { cycles_remaining: left, ..e },
                    ),
                    ..self
                }.lcdc_events_from(m, i + 1)
            }
        }
    }

    pub open spec fn step_lcdc_events(self, m: Mmio) -> PpuView {
        self.lcdc_events_from(m, 0)
    }
}

impl Ppu {
    fn display_stays(&self, value: u8) -> (r: bool)
        ensures
            r == self@.display_stays(value),
    {
        self.lcdc_has(LCDCFlags::DisplayEnable) && lcdc_has(value, LCDCFlags::DisplayEnable)
    }

    fn write_hits_line(&self, value: u8) -> (r: bool)
        ensures
            r == self@.write_hits_line(value),
    {
        self.display_stays(value) && self.state == State::PixelTransfer
    }

    fn lw_journal(&mut self, value: u8, mmio: &Mmio)
        requires
            old(self).wf(),
            old(self)@.in_range(),
        ensures
            final(self).wf(),
            final(self)@.in_range(),
            final(self)@ == old(self)@.lw_journal(value, *mmio),
    {
        reveal(PpuView::lw_journal);
        if !mmio.is_cgb_features_enabled() && self.write_hits_line(value) && select_bits_differ(
            self.lcdc.reg,
            value,
        ) {
            let t_cc: u64 = self.write_cc(false) + WG_TRANSITION_DELAY;
            self.journal.push_wg(t_cc, self.lcdc.reg, value);
            self.bg_retro_repair(mmio);
        }
    }

    fn lw_suppress(&mut self, value: u8, mmio: &Mmio)
        requires
            old(self).wf(),
            old(self)@.in_range(),
        ensures
            final(self).wf(),
            final(self)@.in_range(),
            final(self)@ == old(self)@.lw_suppress(value, *mmio),
    {
        reveal(PpuView::lw_suppress);
        let hit = !mmio.is_cgb() && self.display_stays(value) && self.lcdc_has(
            LCDCFlags::WindowDisplayEnable,
        ) && !lcdc_has(value, LCDCFlags::WindowDisplayEnable) && self.win.win_being_fetched;
        self.win = Win {
            we_insert_suppressed: self.win.we_insert_suppressed || hit,
            ..self.win
        };
    }

    fn bgen_lead(&self, mmio: &Mmio) -> (r: i32)
        requires
            self@.wf(),
        ensures
            r == self@.bgen_lead(*mmio),
            -255 <= r <= 5,
    {
        let cgb_compat = self.is_cgb_compat_dmg(mmio);
        let stall: i32 = self.objs.sprite_fetch_stall as i32;
        let here = self.dmg_unfetched_sprite_at(self.x);
        let next = self.dmg_unfetched_sprite_at(self.x + 1);
        let stall_adj: i32 = if mmio.is_cgb_features_enabled() {
            2
        } else if cgb_compat && stall > 0 {
            3 - stall
        } else if stall > 0 || here {
            0
        } else if next {
            1
        } else {
            2
        };
        let compat_adj: i32 = if cgb_compat && !(stall > 0 || here || next) { 1 } else { 0 };
        let win = self.win.window_started_this_line || self.win.win_draw_start
            || self.window_y_active(mmio);
        stall_adj + compat_adj + (if win { 2 } else { 0 })
    }

    fn lw_bgen(&mut self, value: u8, mmio: &Mmio)
        requires
            old(self).wf(),
            old(self)@.in_range(),
        ensures
            final(self).wf(),
            final(self)@.in_range(),
            final(self)@ == old(self)@.lw_bgen(value, *mmio),
    {
        reveal(PpuView::lw_bgen);
        if self.write_hits_line(value) && flag_differs(
            self.lcdc.reg,
            value,
            LCDCFlags::BGDisplay,
        ) {
            let col: i32 = clamp_i32(self.x as i32 + self.bgen_lead(mmio), 0, 160);
            self.hist.push_bgen(col as u64, lcdc_has(value, LCDCFlags::BGDisplay));
        }
    }

    fn aborted_fetch(&self) -> (r: Option<SpriteFetchRec>)
        requires
            self@.wf(),
            self@.in_range(),
        ensures
            r == self@.aborted_fetch(),
    {
        if self.objs.sprite_fetch_stall == 0 || self.objs.next_sprite_fetch_index == 0 {
            return None;
        }
        match self.line.rec(self.objs.next_sprite_fetch_index - 1) {
            Some(rec) if rec.phase == SpriteFetchPhase::Fetched && rec.arm_tick
                + rec.penalty as u128 > self.ticks + 1 => Some(rec),
            _ => None,
        }
    }

    fn lw_objen(&mut self, value: u8, mmio: &Mmio)
        requires
            old(self).wf(),
            old(self)@.in_range(),
        ensures
            final(self).wf(),
            final(self)@.in_range(),
            final(self)@ == old(self)@.lw_objen(value, *mmio),
    {
        reveal(PpuView::lw_objen);
        if !mmio.is_cgb_features_enabled() && self.write_hits_line(value) && flag_differs(
            self.lcdc.reg,
            value,
            LCDCFlags::SpriteDisplayEnable,
        ) {
            let new_on = lcdc_has(value, LCDCFlags::SpriteDisplayEnable);
            let apply: u128 = if mmio.is_cgb() { OBJEN_APPLY_DOTS_CGB } else { OBJEN_APPLY_DOTS };
            let aborted: Option<SpriteFetchRec> = self.aborted_fetch();
            self.hist.push_objen(self.ticks + apply, new_on);
            if !mmio.is_cgb() && !new_on {
                if let Some(rec) = aborted {
                    self.line.set_rec(
                        self.objs.next_sprite_fetch_index - 1,
                        SpriteFetchRec { phase: SpriteFetchPhase::Aborted, ..rec },
                    );
                    let stall: u8 = self.objs.sprite_fetch_stall;
                    self.objs = Objs {
                        sprite_fetch_stall: if stall <= 1 { stall } else { 1 },
                        ..self.objs
                    };
                }
            }
        }
    }

    fn lw_objsize(&mut self, value: u8, mmio: &Mmio)
        requires
            old(self).wf(),
            old(self)@.in_range(),
        ensures
            final(self).wf(),
            final(self)@.in_range(),
            final(self)@ == old(self)@.lw_objsize(value, *mmio),
    {
        reveal(PpuView::lw_objsize);
        if !mmio.is_cgb_features_enabled() && self.write_hits_line(value) && flag_differs(
            self.lcdc.reg,
            value,
            LCDCFlags::SpriteSize,
        ) {
            let apply_tick: u128 = self.ticks + OBJSIZE_APPLY_DOTS;
            self.hist.push_objsize(apply_tick, lcdc_has(value, LCDCFlags::SpriteSize));
        }
    }

    fn lw_scan_size(&mut self, value: u8, mmio: &Mmio)
        requires
            old(self).wf(),
            old(self)@.in_range(),
        ensures
            final(self).wf(),
            final(self)@.in_range(),
            final(self)@ == old(self)@.lw_scan_size(value, *mmio),
    {
        reveal(PpuView::lw_scan_size);
        if self.display_stays(value) && self.state == State::OAMSearch
            && mmio.is_cgb_features_enabled() && flag_differs(
            self.lcdc.reg,
            value,
            LCDCFlags::SpriteSize,
        ) {
            let ds = mmio.is_double_speed_mode();
            let large = lcdc_has(value, LCDCFlags::SpriteSize);
            let off: u64 = if !ds && !large { 4 } else { 2 };
            let cc: u64 = self.write_cc(ds);
            let prev = self.objsize_large_at_cc(cc);
            self.objs = Objs {
                objsize_prev_large: prev,
                objsize_new_large: large,
                objsize_apply_cc: cc + off,
                ..self.objs
            };
        }
    }

    fn lw_tds(&mut self, value: u8, mmio: &Mmio)
        requires
            old(self).wf(),
            old(self)@.in_range(),
        ensures
            final(self).wf(),
            final(self)@.in_range(),
            final(self)@ == old(self)@.lw_tds(value, *mmio),
    {
        reveal(PpuView::lw_tds);
        if self.state == State::PixelTransfer && flag_differs(
            self.lcdc.reg,
            value,
            LCDCFlags::BGWindowTileDataSelect,
        ) {
            let ds = mmio.is_double_speed_mode();
            let cc: u64 = self.write_cc(ds) + 2;
            let old_lcdc: u8 = self.lcdc.reg;
            self.lcdc = LcdcState {
                lcdc_b4_exact: Some(TdsCommit { cc, new_val: value, old_val: old_lcdc }),
                ..self.lcdc
            };
            if lcdc_has(old_lcdc, LCDCFlags::BGWindowTileDataSelect) && !ds {
                let step: u8 = self.fetcher.fetch_substep();
                if step == 1 || step == 2 {
                    self.journal.push_tidxtd(self.clk.abs_cc + 2, step);
                } else if step == 3 && self.clk.abs_cc % 2 == 1 {
                    self.journal.push_tidxtd(self.clk.abs_cc + 8, 2);
                }
            }
        }
    }

    fn lw_we(&mut self, value: u8, mmio: &Mmio)
        requires
            old(self).wf(),
            old(self)@.in_range(),
        ensures
            final(self).wf(),
            final(self)@.in_range(),
            final(self)@ == old(self)@.lw_we(value, *mmio),
    {
        reveal(PpuView::lw_we);
        if flag_differs(self.lcdc.reg, value, LCDCFlags::WindowDisplayEnable) {
            let ds = mmio.is_double_speed_mode();
            let cc: u64 = self.write_cc(ds) + (if ds { 4 } else { 3 });
            self.lcdc = LcdcState {
                we_win_bit_exact: Some(
                    WeCommit {
                        cc,
                        new_bit: lcdc_has(value, LCDCFlags::WindowDisplayEnable),
                        old_bit: lcdc_has(self.lcdc.reg, LCDCFlags::WindowDisplayEnable),
                    },
                ),
                ..self.lcdc
            };
        }
    }

    pub fn handle_lcdc_write(&mut self, value: u8, mmio: &Mmio)
        requires
            old(self).wf(),
            old(self)@.in_range(),
        ensures
            final(self).wf(),
            final(self)@ == old(self)@.handle_lcdc_write(value, *mmio),
    {
        let old_lcdc: u8 = self.lcdc.reg;
        let two_step = mmio.is_cgb_features_enabled() && self.display_stays(value);
        self.lw_journal(value, mmio);
        self.lw_suppress(value, mmio);
        self.lw_bgen(value, mmio);
        self.lw_objen(value, mmio);
        self.lw_objsize(value, mmio);
        self.lw_scan_size(value, mmio);
        if two_step {
            self.lw_tds(value, mmio);
            self.lw_we(value, mmio);
            self.pending.push(
                PendingLcdcEvent {
                    cycles_remaining: 1,
                    base_value: self.lcdc.reg,
                    value,
                    kind: PendingLcdcEventKind::TileDataSelectOnly,
                },
            );
            self.pending.push(
                PendingLcdcEvent {
                    cycles_remaining: 2,
                    base_value: self.lcdc.reg,
                    value,
                    kind: PendingLcdcEventKind::Full,
                },
            );
        } else {
            self.pending.clear();
            self.set_lcdc_visible(
                value,
                mmio.is_cgb_features_enabled(),
                mmio.is_double_speed_mode(),
            );
        }
    }

    /// A cycle passes for the LCDC writes on their way.
    pub fn step_lcdc_events(&mut self, mmio: &Mmio)
        requires
            old(self).wf(),
            old(self)@.in_range(),
            old(self)@.m0.below(4 * CLOCK_LIMIT),
            old(self)@.pending.len() <= u32::MAX,
        ensures
            final(self).wf(),
            final(self)@ == old(self)@.step_lcdc_events(*mmio),
    {
        if self.pending.len() == 0 {
            return;
        }
        self.step_lcdc_events_slow(mmio);
    }

    fn apply_lcdc_event(&mut self, event: PendingLcdcEvent, mmio: &Mmio)
        requires
            old(self).wf(),
            old(self)@.in_range(),
        ensures
            final(self).wf(),
            final(self)@ == old(self)@.apply_lcdc_event(event, *mmio),
            final(self)@.pending == old(self)@.pending,
            old(self)@.m0.advances_to(final(self)@.m0, 400),
            final(self)@.m0.below(8 * CLOCK_LIMIT) ==> final(self)@.in_range(),
    {
        let cgb = mmio.is_cgb_features_enabled();
        let ds = mmio.is_double_speed_mode();
        proof {
            lemma_visible_keeps_queue(old(self)@, event.value, cgb, ds);
            lemma_visible_keeps_queue(
                old(self)@,
                take_bits(event.base_value, event.value, LCDCFlags::BGWindowTileDataSelect.mask()),
                cgb,
                ds,
            );
        }
        match event.kind {
            PendingLcdcEventKind::TileDataSelectOnly => {
                let value: u8 = take_bits(
                    event.base_value,
                    event.value,
                    LCDCFlags::BGWindowTileDataSelect.mask(),
                );
                self.set_lcdc_visible(value, cgb, ds);
                proof {
                    lemma_visible_in_range(old(self)@, value, cgb, ds);
                }
                self.invalidate_fast_span();
            },
            PendingLcdcEventKind::Full => {
                self.set_lcdc_visible(event.value, cgb, ds);
                proof {
                    lemma_visible_in_range(old(self)@, event.value, cgb, ds);
                }
                self.lcdc = LcdcState { lcdc_b4_exact: None, ..self.lcdc };
                self.invalidate_fast_span();
            },
        }
    }

    fn step_lcdc_events_slow(&mut self, mmio: &Mmio)
        requires
            old(self).wf(),
            old(self)@.in_range(),
            old(self)@.m0.below(4 * CLOCK_LIMIT),
            old(self)@.pending.len() <= u32::MAX,
        ensures
            final(self).wf(),
            final(self)@ == old(self)@.step_lcdc_events(*mmio),
    {
        let mut index: usize = 0;
        while index < self.pending.len()
            invariant
                self.wf(),
                self@.in_range(),
                index <= self@.pending.len() <= u32::MAX,
                self@.pending.len() <= old(self)@.pending.len() <= u32::MAX,
                self@.m0.below(
                    4 * CLOCK_LIMIT + 400 * (old(self)@.pending.len() - self@.pending.len()),
                ),
                self@.lcdc_events_from(*mmio, index as int) == old(self)@.step_lcdc_events(*mmio),
            decreases self@.pending.len() - index,
        {
            let e: PendingLcdcEvent = self.pending.get(index);
            let left: u32 = if e.cycles_remaining > 0 { e.cycles_remaining - 1 } else { 0 };
            if left == 0 {
                let ghost before = self@;
                let _ = self.pending.remove(index);
                let ghost rest = self@.pending;
                self.apply_lcdc_event(e, mmio);
                assert(self@ == (PpuView { pending: rest, ..self@ }));
            } else {
                self.pending.set(index, PendingLcdcEvent { cycles_remaining: left, ..e });
                index += 1;
            }
        }
    }

    /// Takes LCDC over from the bus as it is; writes on their way are dropped.
    pub fn sync_lcdc_from_mmio(&mut self, mmio: &Mmio)
        requires
            old(self).wf(),
            old(self)@.in_range(),
        ensures
            final(self).wf(),
            final(self)@ == old(self)@.sync_lcdc(*mmio),
            old(self)@.m0.advances_to(final(self)@.m0, 400),
            final(self)@.m0.below(8 * CLOCK_LIMIT) ==> final(self)@.in_range(),
    {
        let cgb = mmio.is_cgb_features_enabled();
        let ds = mmio.is_double_speed_mode();
        proof {
            lemma_visible_keeps_queue(old(self)@, mmio.lcdc, cgb, ds);
        }
        self.set_lcdc_visible(mmio.lcdc, cgb, ds);
        proof {
            lemma_visible_in_range(old(self)@, mmio.lcdc, cgb, ds);
        }
        self.pending.clear();
    }
}

impl PpuView {
    pub open spec fn sync_lcdc(self, m: Mmio) -> PpuView {
        PpuView {
            pending: Seq::empty(),
            ..self.set_lcdc_visible(m.lcdc, m.cgb_features, m.double_speed)
        }
    }
}

proof fn lemma_window_switch_keeps(s: PpuView, value: u8, cgb: bool)
    ensures
        s.after_window_switch(value, cgb).0.win_start_dot == s.win.win_start_dot,
        s.after_window_switch(value, cgb).0.predicted_win_start_dot
            == s.win.predicted_win_start_dot,
        s.after_window_switch(value, cgb).0.dmg_wx_trigger_pending
            == s.win.dmg_wx_trigger_pending,
{
    reveal(PpuView::after_window_switch);
}

/// Becoming visible leaves the queue and everything that is drawn alone.
pub proof fn lemma_visible_keeps_queue(s: PpuView, value: u8, cgb: bool, ds: bool)
    ensures
        ({
            let t = s.set_lcdc_visible(value, cgb, ds);
            &&& t.pending == s.pending
            &&& t.lcdc.reg == value
            &&& t.ticks == s.ticks
            &&& t.wg == s.wg
            &&& t.m3 == s.m3
            &&& t.speed == s.speed
            &&& t.state == s.state
            &&& t.disabled == s.disabled
            &&& t.frames == s.frames
            &&& t.clk == s.clk || t.clk == s.clk.touched()
        }),
{
    reveal(PpuView::set_lcdc_visible);
}

pub proof fn lemma_visible_keeps_start(s: PpuView, value: u8, cgb: bool, ds: bool)
    ensures
        ({
            let t = s.set_lcdc_visible(value, cgb, ds);
            &&& t.win.win_start_dot == s.win.win_start_dot
            &&& t.win.predicted_win_start_dot == s.win.predicted_win_start_dot
            &&& t.win.dmg_wx_trigger_pending == s.win.dmg_wx_trigger_pending
        }),
{
    reveal(PpuView::set_lcdc_visible);
    lemma_window_switch_keeps(s, value, cgb);
}

proof fn lemma_visible_in_range(s: PpuView, value: u8, cgb: bool, ds: bool)
    requires
        s.in_range(),
        s.m0.advances_to(s.set_lcdc_visible(value, cgb, ds).m0, 400),
    ensures
        ({
            let t = s.set_lcdc_visible(value, cgb, ds);
            t.m0.below(8 * CLOCK_LIMIT) ==> t.in_range()
        }),
{
    lemma_visible_keeps_queue(s, value, cgb, ds);
    lemma_visible_keeps_start(s, value, cgb, ds);
}

/// What a queued write puts in the register when it comes due.
pub open spec fn shown_by(e: PendingLcdcEvent) -> u8 {
    match e.kind {
        PendingLcdcEventKind::TileDataSelectOnly => take_bits(
            e.base_value,
            e.value,
            LCDCFlags::BGWindowTileDataSelect.mask(),
        ),
        PendingLcdcEventKind::Full => e.value,
    }
}

proof fn lemma_event_shows(s: PpuView, e: PendingLcdcEvent, m: Mmio)
    ensures
        s.apply_lcdc_event(e, m).lcdc.reg == shown_by(e),
{
    lemma_visible_keeps_queue(s, shown_by(e), m.cgb_features, m.double_speed);
}

/// The last of the queue shows last, if it is due.
proof fn lemma_last_due_shows(s: PpuView, m: Mmio, i: int)
    requires
        0 <= i < s.pending.len(),
        s.pending.last().cycles_remaining <= 1,
    ensures
        s.lcdc_events_from(m, i).lcdc.reg == shown_by(s.pending.last()),
    decreases s.pending.len() - i,
{
    let e = s.pending[i];
    let left = if e.cycles_remaining > 0 { (e.cycles_remaining - 1) as u32 } else { 0 };
    if left == 0 {
        let rest = s.pending.remove(i);
        let applied = PpuView { pending: rest, ..s }.apply_lcdc_event(e, m);
        let t = PpuView { pending: rest, ..applied };
        lemma_event_shows(PpuView { pending: rest, ..s }, e, m);
        if i + 1 < s.pending.len() {
            assert(rest.last() == s.pending.last());
            lemma_last_due_shows(t, m, i);
        } else {
            assert(t.lcdc_events_from(m, i) == t);
        }
    } else {
        let queue = s.pending.update(i, PendingLcdcEvent { cycles_remaining: left, ..e });
        assert(queue.last() == s.pending.last());
        lemma_last_due_shows(PpuView { pending: queue, ..s }, m, i + 1);
    }
}

/// A last write that is not due yet waits, and what stands before it shows.
proof fn lemma_last_waits(s: PpuView, m: Mmio, i: int)
    requires
        0 <= i <= s.pending.len() - 2,
        s.pending.last().cycles_remaining == 2,
        s.pending[s.pending.len() - 2].cycles_remaining <= 1,
    ensures
        ({
            let t = s.lcdc_events_from(m, i);
            &&& t.lcdc.reg == shown_by(s.pending[s.pending.len() - 2])
            &&& t.pending.len() > 0
            &&& t.pending.last() == (PendingLcdcEvent {
                cycles_remaining: 1,
                ..s.pending.last()
            })
        }),
    decreases s.pending.len() - i,
{
    let n = s.pending.len();
    let e = s.pending[i];
    let left = if e.cycles_remaining > 0 { (e.cycles_remaining - 1) as u32 } else { 0 };
    if left == 0 {
        let rest = s.pending.remove(i);
        let applied = PpuView { pending: rest, ..s }.apply_lcdc_event(e, m);
        let t = PpuView { pending: rest, ..applied };
        lemma_event_shows(PpuView { pending: rest, ..s }, e, m);
        assert(rest.last() == s.pending.last());
        if i < n - 2 {
            assert(rest[rest.len() - 2] == s.pending[n - 2]);
            lemma_last_waits(t, m, i);
        } else {
            let last = PendingLcdcEvent { cycles_remaining: 1, ..rest.last() };
            let u = PpuView { pending: rest.update(i, last), ..t };
            assert(t.lcdc_events_from(m, i) == u.lcdc_events_from(m, i + 1));
            assert(u.lcdc_events_from(m, i + 1) == u);
        }
    } else {
        let queue = s.pending.update(i, PendingLcdcEvent { cycles_remaining: left, ..e });
        assert(i < n - 2);
        assert(queue.last() == s.pending.last());
        assert(queue[n - 2] == s.pending[n - 2]);
        lemma_last_waits(PpuView { pending: queue, ..s }, m, i + 1);
    }
}

/// No step of a write's records touches the register or the queue.
proof fn lemma_steps_keep_register(s: PpuView, value: u8, m: Mmio)
    ensures
        s.lw_journal(value, m).lcdc.reg == s.lcdc.reg,
        s.lw_journal(value, m).pending == s.pending,
        s.lw_suppress(value, m).lcdc.reg == s.lcdc.reg,
        s.lw_suppress(value, m).pending == s.pending,
        s.lw_bgen(value, m).lcdc.reg == s.lcdc.reg,
        s.lw_bgen(value, m).pending == s.pending,
        s.lw_objen(value, m).lcdc.reg == s.lcdc.reg,
        s.lw_objen(value, m).pending == s.pending,
        s.lw_objsize(value, m).lcdc.reg == s.lcdc.reg,
        s.lw_objsize(value, m).pending == s.pending,
        s.lw_scan_size(value, m).lcdc.reg == s.lcdc.reg,
        s.lw_scan_size(value, m).pending == s.pending,
        s.lw_tds(value, m).lcdc.reg == s.lcdc.reg,
        s.lw_tds(value, m).pending == s.pending,
        s.lw_we(value, m).lcdc.reg == s.lcdc.reg,
        s.lw_we(value, m).pending == s.pending,
{
    reveal(PpuView::lw_journal);
    reveal(PpuView::lw_suppress);
    reveal(PpuView::lw_bgen);
    reveal(PpuView::lw_objen);
    reveal(PpuView::lw_objsize);
    reveal(PpuView::lw_scan_size);
    reveal(PpuView::lw_tds);
    reveal(PpuView::lw_we);
}

proof fn lemma_records_keep_register(s: PpuView, value: u8, m: Mmio)
    ensures
        s.lw_records(value, m).lcdc.reg == s.lcdc.reg,
        s.lw_records(value, m).pending == s.pending,
        s.lw_records(value, m).lw_tds(value, m).lw_we(value, m).lcdc.reg == s.lcdc.reg,
        s.lw_records(value, m).lw_tds(value, m).lw_we(value, m).pending == s.pending,
{
    lemma_steps_keep_register(s, value, m);
    let s1 = s.lw_journal(value, m);
    lemma_steps_keep_register(s1, value, m);
    let s2 = s1.lw_suppress(value, m);
    lemma_steps_keep_register(s2, value, m);
    let s3 = s2.lw_bgen(value, m);
    lemma_steps_keep_register(s3, value, m);
    let s4 = s3.lw_objen(value, m);
    lemma_steps_keep_register(s4, value, m);
    let s5 = s4.lw_objsize(value, m);
    lemma_steps_keep_register(s5, value, m);
    let s6 = s5.lw_scan_size(value, m);
    lemma_steps_keep_register(s6, value, m);
    let s7 = s6.lw_tds(value, m);
    lemma_steps_keep_register(s7, value, m);
}

/// In CGB mode a write that leaves the LCD on shows nothing at once, its
/// tile-data-select bit one cycle later and all of it after another one,
/// whatever else was queued.
pub proof fn law_cgb_write_shows_in_two_cycles(s: PpuView, value: u8, m: Mmio)
    requires
        m.cgb_features,
        s.display_stays(value),
    ensures
        ({
            let written = s.handle_lcdc_write(value, m);
            let first = written.step_lcdc_events(m);
            let second = first.step_lcdc_events(m);
            &&& written.lcdc.reg == s.lcdc.reg
            &&& first.lcdc.reg == take_bits(
                s.lcdc.reg,
                value,
                LCDCFlags::BGWindowTileDataSelect.mask(),
            )
            &&& second.lcdc.reg == value
        }),
{
    let written = s.handle_lcdc_write(value, m);
    lemma_records_keep_register(s, value, m);
    let n = written.pending.len();
    assert(written.pending[n - 2].cycles_remaining == 1);
    lemma_last_waits(written, m, 0);
    let first = written.step_lcdc_events(m);
    lemma_last_due_shows(first, m, 0);
}

/// Any other write shows at once and drops what was queued.
pub proof fn law_other_write_shows_at_once(s: PpuView, value: u8, m: Mmio)
    requires
        !(m.cgb_features && s.display_stays(value)),
    ensures
        s.handle_lcdc_write(value, m).lcdc.reg == value,
        s.handle_lcdc_write(value, m).pending.len() == 0,
{
    let r = s.lw_records(value, m);
    lemma_visible_keeps_queue(
        PpuView { pending: Seq::empty(), ..r },
        value,
        m.cgb_features,
        m.double_speed,
    );
}

} // verus!
