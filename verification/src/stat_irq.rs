//! Scheduled events: the STAT interrupts, vertical blank, and register writes
//! that reach the picture late.

use vstd::prelude::*;

use crate::arith::{imax, imin, to_dots};
use crate::journal::JournalView;
use crate::ly_counter::{inc_ly, LyCounter};
use crate::mmio::{InterruptFlag, Mmio};
use crate::regs::{
    as_signed, at_least_zero, at_least_zero_spec, cycles_to_dots, dots_to_cycles, lcdc_has, scaled,
    signed, LCDCFlags, CLOCK_LIMIT, DISABLED_TIME,
};
use crate::state::{Clk, Latch, LycIrq, MStatIrq, Ppu, PpuView, State, Win, M3};

verus! {

/// STAT's interrupt enables.
pub const STAT_M0_IRQ: u8 = 0x08;
pub const STAT_M1_IRQ: u8 = 0x10;
pub const STAT_M2_IRQ: u8 = 0x20;
pub const STAT_LYC_IRQ: u8 = 0x40;

/// Dots between the scheduled end of mode 3 and its interrupt.
pub const M0IRQ_OFFSET: i64 = -3;
/// The same on the first line after switching the LCD on, on top, on DMG.
pub const M0IRQ_DMG_FIRST_FRAME_OFFSET: i64 = -3;
/// The same with fine scroll 2 on CGB, on top.
pub const M0IRQ_SCX2_CGB_OFFSET: i64 = -1;
/// Dots between the start of the scan and its interrupt.
pub const M2IRQ_OFFSET: i64 = -1;
/// Delays from a write to its effect.
pub const WY1_DELAY: u64 = 2;
pub const WY2_DELAY_CGB: u64 = 7;
pub const WY2_DELAY_DMG: u64 = 4;
pub const SCY_DELAY: u64 = 2;
pub const SCX_DELAY: u64 = 2;
/// Delay from a WY or LCDC write to the comparison of WY and LY it causes.
pub const WY_RECHECK_DELAY: u64 = 4;
/// Dots of a line before the comparison has a line number to go by.
pub const WY_RECHECK_LY_VALID_DOT: u128 = 3;
/// The dot from which the comparison sees the next line on CGB.
pub const CGB_WY_RAW_LY_INC_DOT: u128 = 450;
/// Dots for which every check is made after something changed.
pub const FAST_HOLD_DOTS: u8 = 8;
/// The last dots of a line, by the line counter and by the drawing's own count,
/// on which nothing of the next line shows yet.
pub const FAST_LAST_CYCLE: u32 = 453;
pub const FAST_LAST_DOT: u128 = 449;

/// Whether all bits of `mask` are clear in `stat`.
#[verifier::allow_in_spec]
pub fn stat_clear(stat: u8, mask: u8) -> bool
    returns
        stat & mask == 0,
{
    stat & mask == 0
}

impl LycIrq {
    pub open spec fn spec_seed(self, stat: u8, lyc: u8) -> LycIrq {
        LycIrq { lyc_reg_src: lyc, stat_reg_src: stat, lyc_reg: lyc, stat_reg: stat, ..self }
    }

    pub open spec fn spec_lcd_reset(self) -> LycIrq {
        LycIrq { lyc_reg: self.lyc_reg_src, stat_reg: self.stat_reg_src, ..self }
    }

    pub fn set_cgb(self, cgb: bool) -> (r: LycIrq)
        ensures
            r == (LycIrq { cgb, ..self }),
    {
        LycIrq { cgb, ..self }
    }

    /// Takes both registers over at once.
    pub fn seed(self, stat: u8, lyc: u8) -> (r: LycIrq)
        ensures
            r == self.spec_seed(stat, lyc),
    {
        LycIrq { lyc_reg_src: lyc, stat_reg_src: stat, lyc_reg: lyc, stat_reg: stat, ..self }
    }

    pub fn lcd_reset(self) -> (r: LycIrq)
        ensures
            r == self.spec_lcd_reset(),
    {
        LycIrq { lyc_reg: self.lyc_reg_src, stat_reg: self.stat_reg_src, ..self }
    }

    /// Whether the match of line `ly` raises the interrupt: it is enabled, and
    /// no mode interrupt holds the line already.
    pub open spec fn fires(self, ly: u32) -> bool {
        let holding = if 0 < ly <= 144 { STAT_M2_IRQ } else { STAT_M1_IRQ };
        (!stat_clear(self.stat_reg, STAT_LYC_IRQ) || !stat_clear(self.stat_reg_src, STAT_LYC_IRQ))
            && self.lyc_reg == ly && stat_clear(self.stat_reg, holding)
    }

    pub fn do_event(self, ly: u32) -> (r: (LycIrq, bool))
        ensures
            r == (self.spec_lcd_reset(), self.fires(ly)),
    {
        let holding: u8 = if 0 < ly && ly <= 144 { STAT_M2_IRQ } else { STAT_M1_IRQ };
        let fires = (!stat_clear(self.stat_reg, STAT_LYC_IRQ) || !stat_clear(
            self.stat_reg_src,
            STAT_LYC_IRQ,
        )) && self.lyc_reg as u32 == ly && stat_clear(self.stat_reg, holding);
        (self.lcd_reset(), fires)
    }
}

impl MStatIrq {
    pub fn seed(self, stat: u8, lyc: u8) -> (r: MStatIrq)
        ensures
            r == (MStatIrq { lyc_reg: lyc, stat_reg: stat }),
    {
        MStatIrq { lyc_reg: lyc, stat_reg: stat }
    }

    pub fn lcd_reset(self, lyc: u8) -> (r: MStatIrq)
        ensures
            r == (MStatIrq { lyc_reg: lyc, ..self }),
    {
        MStatIrq { lyc_reg: lyc, ..self }
    }

    /// Vertical blank raises the interrupt where it is enabled and the other
    /// mode interrupts do not hold the line.
    pub open spec fn m1_fires(self) -> bool {
        !stat_clear(self.stat_reg, STAT_M1_IRQ) && stat_clear(self.stat_reg, STAT_M2_IRQ)
            && stat_clear(self.stat_reg, STAT_M0_IRQ)
    }

    pub fn do_m1_event(self, stat: u8) -> (r: (MStatIrq, bool))
        ensures
            r == (MStatIrq { stat_reg: stat, ..self }, self.m1_fires()),
    {
        let fires = !stat_clear(self.stat_reg, STAT_M1_IRQ) && stat_clear(
            self.stat_reg,
            STAT_M2_IRQ,
        ) && stat_clear(self.stat_reg, STAT_M0_IRQ);
        (MStatIrq { stat_reg: stat, ..self }, fires)
    }

    /// The end of mode 3 raises the interrupt where it is enabled and the LYC
    /// interrupt does not hold the line.
    pub open spec fn m0_fires(self, ly: u32) -> bool {
        !stat_clear(self.stat_reg, STAT_M0_IRQ) && (stat_clear(self.stat_reg, STAT_LYC_IRQ) || ly
            != self.lyc_reg)
    }

    pub fn do_m0_event(self, ly: u32, stat: u8, lyc: u8) -> (r: (MStatIrq, bool))
        ensures
            r == (MStatIrq { stat_reg: stat, lyc_reg: lyc }, self.m0_fires(ly)),
    {
        let fires = !stat_clear(self.stat_reg, STAT_M0_IRQ) && (stat_clear(
            self.stat_reg,
            STAT_LYC_IRQ,
        ) || ly != self.lyc_reg as u32);
        (MStatIrq { stat_reg: stat, lyc_reg: lyc }, fires)
    }

    /// The scan of line `ly` raises the interrupt unless vertical blank or the
    /// line before holds it.
    pub open spec fn m2_fires(self, ly: u32) -> bool {
        let before = if ly == 0 { 0 } else { (ly - 1) as u32 };
        !(ly == 0 && !stat_clear(self.stat_reg, STAT_M1_IRQ)) && !(!stat_clear(
            self.stat_reg,
            STAT_LYC_IRQ,
        ) && before == self.lyc_reg)
    }

    pub fn do_m2_event(self, ly: u32, stat: u8, lyc: u8) -> (r: (MStatIrq, bool))
        ensures
            r == (MStatIrq { stat_reg: stat, lyc_reg: lyc }, self.m2_fires(ly)),
    {
        let before: u32 = if ly == 0 { 0 } else { ly - 1 };
        let fires = !(ly == 0 && !stat_clear(self.stat_reg, STAT_M1_IRQ)) && !(!stat_clear(
            self.stat_reg,
            STAT_LYC_IRQ,
        ) && before == self.lyc_reg as u32);
        (MStatIrq { stat_reg: stat, lyc_reg: lyc }, fires)
    }
}

/// The next time after `cc` that the frame is at `frame_cycle`.
pub open spec fn next_frame_cycle(lc: LyCounter, frame_cycle: int, cc: int) -> int {
    let t = lc.time + dots_to_cycles((153 - lc.ly) * 456 + frame_cycle, lc.ds);
    let frame = dots_to_cycles(70224, lc.ds);
    if t - cc > frame { t - frame } else { t }
}

/// The next time after `cc` that a line is at `line_cycle`.
pub open spec fn next_line_cycle(lc: LyCounter, line_cycle: int, cc: int) -> int {
    let t = lc.time + dots_to_cycles(line_cycle, lc.ds);
    let line = dots_to_cycles(456, lc.ds);
    if t - cc > line { t - line } else { t }
}

fn next_frame_cycle_exec(lc: &LyCounter, frame_cycle: u64, cc: u64) -> (r: u64)
    requires
        lc.ly < 154,
        lc.time < 2 * CLOCK_LIMIT,
        cc <= lc.time,
        frame_cycle <= 70224,
    ensures
        r == next_frame_cycle(*lc, frame_cycle as int, cc as int),
        cc <= r < 3 * CLOCK_LIMIT,
{
    let dots: u64 = (153 - lc.ly as u64) * 456 + frame_cycle;
    let t: u64 = lc.time + (if lc.ds { dots * 2 } else { dots });
    let frame: u64 = if lc.ds { 140448 } else { 70224 };
    if t - cc > frame { t - frame } else { t }
}

fn next_line_cycle_exec(lc: &LyCounter, line_cycle: u64, cc: u64) -> (r: u64)
    requires
        lc.time < 2 * CLOCK_LIMIT,
        cc <= lc.time,
        line_cycle <= 456,
    ensures
        r == next_line_cycle(*lc, line_cycle as int, cc as int),
        r < 3 * CLOCK_LIMIT,
{
    let t: u64 = lc.time + (if lc.ds { line_cycle * 2 } else { line_cycle });
    let line: u64 = if lc.ds { 912 } else { 456 };
    if t - cc > line { t - line } else { t }
}

/// The time of the LYC interrupt: two dots before the line, six dots into the
/// last line for line 0.
#[verifier::opaque]
pub open spec fn schedule_lyc(stat: u8, lyc: u8, lc: LyCounter, cc: int) -> int {
    if !stat_clear(stat, STAT_LYC_IRQ) && lyc < 154 {
        next_frame_cycle(lc, if lyc > 0 { lyc * 456 - 2 } else { 153int * 456 + 6 }, cc)
    } else {
        DISABLED_TIME as int
    }
}

/// Dots from the scan interrupt of the last line drawn to that of line 0.
pub const M2IRQ_PAUSE: u64 = 11 * 456 + 2;

/// The time of the scan interrupt: before each line that is drawn, only before
/// line 0 where the mode-0 interrupt is enabled too.
#[verifier::opaque]
pub open spec fn schedule_m2(stat: u8, lc: LyCounter, cc: int) -> int {
    let line0 = next_frame_cycle(lc, 154 * 456 - 2 + M2IRQ_OFFSET, cc);
    if stat_clear(stat, STAT_M2_IRQ) {
        DISABLED_TIME as int
    } else if !stat_clear(stat, STAT_M0_IRQ) || line0 - cc <= dots_to_cycles(
        M2IRQ_PAUSE as int,
        lc.ds,
    ) {
        line0
    } else {
        next_line_cycle(lc, 456 - 4 + M2IRQ_OFFSET, cc)
    }
}

fn schedule_lyc_exec(stat: u8, lyc: u8, lc: &LyCounter, cc: u64) -> (r: u64)
    requires
        lc.ly < 154,
        lc.time < 2 * CLOCK_LIMIT,
        cc <= lc.time,
    ensures
        r == schedule_lyc(stat, lyc, *lc, cc as int),
{
    reveal(schedule_lyc);
    if !stat_clear(stat, STAT_LYC_IRQ) && lyc < 154 {
        let fc: u64 = if lyc > 0 { lyc as u64 * 456 - 2 } else { 153 * 456 + 6 };
        next_frame_cycle_exec(lc, fc, cc)
    } else {
        DISABLED_TIME
    }
}

fn schedule_m2_exec(stat: u8, lc: &LyCounter, cc: u64) -> (r: u64)
    requires
        lc.ly < 154,
        lc.time < 2 * CLOCK_LIMIT,
        cc <= lc.time,
    ensures
        r == schedule_m2(stat, *lc, cc as int),
{
    reveal(schedule_m2);
    if stat_clear(stat, STAT_M2_IRQ) {
        return DISABLED_TIME;
    }
    let line0: u64 = next_frame_cycle_exec(lc, 154 * 456 - 3, cc);
    let pause: u64 = if lc.ds { M2IRQ_PAUSE * 2 } else { M2IRQ_PAUSE };
    if !stat_clear(stat, STAT_M0_IRQ) || line0 - cc <= pause {
        line0
    } else {
        next_line_cycle_exec(lc, 451, cc)
    }
}

impl Clk {
    /// Something may be due sooner than was thought.
    pub open spec fn touched(self) -> Clk {
        Clk { sched_min: 0, fast_dots_left: 0, ..self }
    }

    /// Something may change that drawing has to watch for.
    pub open spec fn fast_span_invalid(self) -> Clk {
        Clk { fast_dots_left: 0, fast_hold: FAST_HOLD_DOTS, ..self }
    }

    /// All recurring events scheduled anew.
    pub open spec fn rescheduled(self, lc: LyCounter) -> Clk {
        Clk {
            sched_lycirq: schedule_lyc(
                self.lyc_irq.stat_reg,
                self.lyc_irq.lyc_reg,
                lc,
                self.abs_cc as int,
            ) as u64,
            sched_m1irq: next_frame_cycle(lc, 144 * 456 - 2, self.abs_cc as int) as u64,
            sched_m2irq: schedule_m2(self.stat_reg_committed, lc, self.abs_cc as int) as u64,
            ..self.touched()
        }
    }

    /// Vertical blank is due: its own interrupt, and STAT's where it fires.
    #[verifier::opaque]
    pub open spec fn m1_event(self, ds: bool) -> (Clk, u8) {
        if self.sched_m1irq > self.abs_cc {
            (self, 0)
        } else {
            (
                Clk {
                    mstat_irq: MStatIrq { stat_reg: self.stat_reg_committed, ..self.mstat_irq },
                    m1_vblank_fired: true,
                    sched_m1irq: (self.sched_m1irq + dots_to_cycles(70224, ds)) as u64,
                    ..self
                },
                if self.mstat_irq.m1_fires() { 0x03u8 } else { 0x01 },
            )
        }
    }

    #[verifier::opaque]
    pub open spec fn lyc_event(self, lc: LyCounter) -> (Clk, u8) {
        if self.sched_lycirq > self.abs_cc {
            (self, 0)
        } else {
            let next = self.lyc_irq.spec_lcd_reset();
            (
                Clk {
                    lyc_irq: next,
                    sched_lycirq: schedule_lyc(
                        next.stat_reg,
                        next.lyc_reg,
                        lc,
                        self.abs_cc as int,
                    ) as u64,
                    ..self
                },
                if self.lyc_irq.fires(if lc.ly == 153 { 0 } else { (lc.ly + 1) as u32 }) {
                    0x02u8
                } else {
                    0
                },
            )
        }
    }

    #[verifier::opaque]
    pub open spec fn m2_event(self, lc: LyCounter, lyc: u8) -> (Clk, u8) {
        if self.sched_m2irq > self.abs_cc {
            (self, 0)
        } else {
            (
                Clk {
                    mstat_irq: MStatIrq { stat_reg: self.stat_reg_committed, lyc_reg: lyc },
                    sched_m2irq: schedule_m2(
                        self.stat_reg_committed,
                        lc,
                        self.abs_cc as int,
                    ) as u64,
                    ..self
                },
                if self.mstat_irq.m2_fires(inc_ly(lc.ly)) { 0x02u8 } else { 0 },
            )
        }
    }

    #[verifier::opaque]
    pub open spec fn m0_event(self, ly: u32, lyc: u8) -> (Clk, u8) {
        if self.sched_m0irq > self.abs_cc {
            (self, 0)
        } else {
            (
                Clk {
                    mstat_irq: MStatIrq { stat_reg: self.stat_reg_committed, lyc_reg: lyc },
                    sched_m0irq: DISABLED_TIME,
                    ..self
                },
                if self.mstat_irq.m0_fires(ly) { 0x02u8 } else { 0 },
            )
        }
    }

    #[verifier::opaque]
    pub open spec fn oneshot_event(self) -> (Clk, u8) {
        if self.sched_oneshot_statirq > self.abs_cc {
            (self, 0)
        } else {
            (Clk { sched_oneshot_statirq: DISABLED_TIME, ..self }, 0x02)
        }
    }

    /// Every interrupt that is due, and the requests they make.
    pub open spec fn irq_events(self, lc: LyCounter, lyc: u8) -> (Clk, u8) {
        let (c1, f1) = self.m1_event(lc.ds);
        let (c2, f2) = c1.lyc_event(lc);
        let (c3, f3) = c2.m2_event(lc, lyc);
        let (c4, f4) = c3.m0_event(lc.ly, lyc);
        let (c5, f5) = c4.oneshot_event();
        (c5, f1 | f2 | f3 | f4 | f5)
    }

    fn do_irq_events(self, lc: &LyCounter, lyc: u8) -> (r: (Clk, u8))
        requires
            lc.ly < 154,
            self.abs_cc <= lc.time < 2 * CLOCK_LIMIT,
        ensures
            r == self.irq_events(*lc, lyc),
    {
        let (c1, f1): (Clk, u8) = self.do_m1(lc.ds);
        assert(c1.abs_cc == self.abs_cc) by {
            reveal(Clk::m1_event);
        }
        let (c2, f2): (Clk, u8) = c1.do_lyc(lc);
        assert(c2.abs_cc == self.abs_cc) by {
            reveal(Clk::lyc_event);
        }
        let (c3, f3): (Clk, u8) = c2.do_m2(lc, lyc);
        let (c4, f4): (Clk, u8) = c3.do_m0(lc.ly, lyc);
        let (c5, f5): (Clk, u8) = c4.do_oneshot();
        (c5, f1 | f2 | f3 | f4 | f5)
    }

    fn do_m1(self, ds: bool) -> (r: (Clk, u8))
        requires
            self.abs_cc < 2 * CLOCK_LIMIT,
        ensures
            r == self.m1_event(ds),
    {
        reveal(Clk::m1_event);
        if self.sched_m1irq > self.abs_cc {
            return (self, 0);
        }
        let (mstat_irq, fires): (MStatIrq, bool) = self.mstat_irq.do_m1_event(
            self.stat_reg_committed,
        );
        let frame: u64 = if ds { 140448 } else { 70224 };
        (
            Clk {
                mstat_irq,
                m1_vblank_fired: true,
                sched_m1irq: self.sched_m1irq + frame,
                ..self
            },
            if fires { 0x03 } else { 0x01 },
        )
    }

    fn do_lyc(self, lc: &LyCounter) -> (r: (Clk, u8))
        requires
            lc.ly < 154,
            self.abs_cc <= lc.time < 2 * CLOCK_LIMIT,
        ensures
            r == self.lyc_event(*lc),
    {
        reveal(Clk::lyc_event);
        if self.sched_lycirq > self.abs_cc {
            return (self, 0);
        }
        let seen: u32 = if lc.ly == 153 { 0 } else { lc.ly + 1 };
        let (lyc_irq, fires): (LycIrq, bool) = self.lyc_irq.do_event(seen);
        let sched_lycirq: u64 = schedule_lyc_exec(
            lyc_irq.stat_reg,
            lyc_irq.lyc_reg,
            lc,
            self.abs_cc,
        );
        (Clk { lyc_irq, sched_lycirq, ..self }, if fires { 0x02 } else { 0 })
    }

    fn do_m2(self, lc: &LyCounter, lyc: u8) -> (r: (Clk, u8))
        requires
            lc.ly < 154,
            self.abs_cc <= lc.time < 2 * CLOCK_LIMIT,
        ensures
            r == self.m2_event(*lc, lyc),
    {
        reveal(Clk::m2_event);
        if self.sched_m2irq > self.abs_cc {
            return (self, 0);
        }
        let (mstat_irq, fires): (MStatIrq, bool) = self.mstat_irq.do_m2_event(
            inc_ly(lc.ly),
            self.stat_reg_committed,
            lyc,
        );
        let sched_m2irq: u64 = schedule_m2_exec(self.stat_reg_committed, lc, self.abs_cc);
        (Clk { mstat_irq, sched_m2irq, ..self }, if fires { 0x02 } else { 0 })
    }

    fn do_m0(self, ly: u32, lyc: u8) -> (r: (Clk, u8))
        ensures
            r == self.m0_event(ly, lyc),
    {
        reveal(Clk::m0_event);
        if self.sched_m0irq > self.abs_cc {
            return (self, 0);
        }
        let (mstat_irq, fires): (MStatIrq, bool) = self.mstat_irq.do_m0_event(
            ly,
            self.stat_reg_committed,
            lyc,
        );
        (Clk { mstat_irq, sched_m0irq: DISABLED_TIME, ..self }, if fires { 0x02 } else { 0 })
    }

    fn do_oneshot(self) -> (r: (Clk, u8))
        ensures
            r == self.oneshot_event(),
    {
        reveal(Clk::oneshot_event);
        if self.sched_oneshot_statirq > self.abs_cc {
            return (self, 0);
        }
        (Clk { sched_oneshot_statirq: DISABLED_TIME, ..self }, 0x02)
    }
}

/// The smaller of two event times.
#[verifier::allow_in_spec]
pub fn earlier(a: u64, b: u64) -> u64
    returns
        (if a <= b { a } else { b }),
{
    if a <= b { a } else { b }
}

impl Latch {
    /// Register writes that are due at `cc` take effect.
    #[verifier::opaque]
    pub open spec fn applied(self, cc: u64) -> Latch {
        let w1 = self.wy1_apply_cc <= cc && self.wy1_apply_cc != DISABLED_TIME;
        let w2 = self.wy2_apply_cc <= cc && self.wy2_apply_cc != DISABLED_TIME;
        let sy = self.scy_apply_cc <= cc && self.scy_apply_cc != DISABLED_TIME;
        let sx = self.scx_apply_cc <= cc && self.scx_apply_cc != DISABLED_TIME;
        Latch {
            wy1: if w1 { self.wy1_pending } else { self.wy1 },
            wy1_apply_cc: if w1 { DISABLED_TIME } else { self.wy1_apply_cc },
            wy2: if w2 { self.wy2_pending } else { self.wy2 },
            wy2_apply_cc: if w2 { DISABLED_TIME } else { self.wy2_apply_cc },
            scy_delayed: if sy { self.scy_pending } else { self.scy_delayed },
            scy_apply_cc: if sy { DISABLED_TIME } else { self.scy_apply_cc },
            scx_delayed: if sx { self.scx_pending } else { self.scx_delayed },
            scx_apply_cc: if sx { DISABLED_TIME } else { self.scx_apply_cc },
            ..self
        }
    }

    fn apply(self, cc: u64) -> (r: Latch)
        ensures
            r == self.applied(cc),
    {
        reveal(Latch::applied);
        let w1 = self.wy1_apply_cc <= cc && self.wy1_apply_cc != DISABLED_TIME;
        let w2 = self.wy2_apply_cc <= cc && self.wy2_apply_cc != DISABLED_TIME;
        let sy = self.scy_apply_cc <= cc && self.scy_apply_cc != DISABLED_TIME;
        let sx = self.scx_apply_cc <= cc && self.scx_apply_cc != DISABLED_TIME;
        Latch {
            wy1: if w1 { self.wy1_pending } else { self.wy1 },
            wy1_apply_cc: if w1 { DISABLED_TIME } else { self.wy1_apply_cc },
            wy2: if w2 { self.wy2_pending } else { self.wy2 },
            wy2_apply_cc: if w2 { DISABLED_TIME } else { self.wy2_apply_cc },
            scy_delayed: if sy { self.scy_pending } else { self.scy_delayed },
            scy_apply_cc: if sy { DISABLED_TIME } else { self.scy_apply_cc },
            scx_delayed: if sx { self.scx_pending } else { self.scx_delayed },
            scx_apply_cc: if sx { DISABLED_TIME } else { self.scx_apply_cc },
            ..self
        }
    }

    /// The earliest write still on its way.
    #[verifier::opaque]
    pub open spec fn next_due(self) -> u64 {
        earlier(
            earlier(self.wy1_apply_cc, self.wy2_apply_cc),
            earlier(earlier(self.scy_apply_cc, self.scx_apply_cc), self.wy_recheck_cc),
        )
    }

    fn find_next_due(self) -> (r: u64)
        ensures
            r == self.next_due(),
    {
        reveal(Latch::next_due);
        earlier(
            earlier(self.wy1_apply_cc, self.wy2_apply_cc),
            earlier(earlier(self.scy_apply_cc, self.scx_apply_cc), self.wy_recheck_cc),
        )
    }
}

impl Clk {
    /// The earliest interrupt scheduled.
    #[verifier::opaque]
    pub open spec fn next_irq(self) -> u64 {
        earlier(
            earlier(self.sched_lycirq, self.sched_m1irq),
            earlier(
                earlier(self.sched_m2irq, self.sched_m0irq),
                self.sched_oneshot_statirq,
            ),
        )
    }

    fn find_next_irq(self) -> (r: u64)
        ensures
            r == self.next_irq(),
    {
        reveal(Clk::next_irq);
        earlier(
            earlier(self.sched_lycirq, self.sched_m1irq),
            earlier(
                earlier(self.sched_m2irq, self.sched_m0irq),
                self.sched_oneshot_statirq,
            ),
        )
    }
}

impl PpuView {
    /// The line number that a WY comparison caused by a write goes by.
    pub open spec fn wy_comparator_ly(self, m: Mmio) -> int {
        if m.cgb_features && !m.double_speed && self.ticks >= CGB_WY_RAW_LY_INC_DOT {
            m.ly + 1
        } else {
            m.ly as int
        }
    }

    /// The comparison that a WY or LCDC write caused is due and matches.
    pub open spec fn wy_recheck_hits(self, m: Mmio) -> bool {
        self.latch.wy_recheck_cc <= self.clk.abs_cc && self.lcdc_has(
            LCDCFlags::WindowDisplayEnable,
        ) && self.ticks >= WY_RECHECK_LY_VALID_DOT && self.wy_comparator_ly(m) == self.latch.wy1
    }

    pub open spec fn run_wy_recheck(self, m: Mmio) -> PpuView {
        PpuView {
            latch: Latch {
                wy_recheck_cc: if self.latch.wy_recheck_cc <= self.clk.abs_cc {
                    DISABLED_TIME
                } else {
                    self.latch.wy_recheck_cc
                },
                ..self.latch
            },
            win: Win {
                window_y_triggered: self.win.window_y_triggered || self.wy_recheck_hits(m),
                ..self.win
            },
            ..self
        }
    }

    /// A WY or LCDC write compares WY and LY again, unless they have met.
    pub open spec fn arm_wy_recheck(self, cc: int) -> PpuView {
        if self.win.window_y_triggered {
            self
        } else {
            PpuView {
                latch: Latch { wy_recheck_cc: (cc + WY_RECHECK_DELAY) as u64, ..self.latch },
                ..self
            }
        }
    }

    /// Register writes and the WY comparison that are due take effect.
    #[verifier::opaque]
    pub open spec fn due_writes(self, m: Mmio) -> PpuView {
        PpuView { latch: self.latch.applied(self.clk.abs_cc), ..self }.run_wy_recheck(m)
    }

    /// Interrupts that are due are requested, and the next event is found.
    #[verifier::opaque]
    pub open spec fn due_irqs(self, lc: LyCounter, lyc: u8) -> (Clk, u8) {
        let (clk, req) = self.clk.irq_events(lc, lyc);
        (Clk { sched_min: earlier(clk.next_irq(), self.latch.next_due()), ..clk }, req)
    }

    /// Everything that is due takes place; nothing, where the next event is
    /// known to lie ahead.
    pub open spec fn dispatch_stat_events(self, m: Mmio) -> (PpuView, Mmio) {
        if self.clk.sched_min != 0 && self.clk.abs_cc < self.clk.sched_min {
            (self, m)
        } else {
            let s = self.due_writes(m);
            let (clk, req) = s.due_irqs(self.ly_counter(m), m.lyc);
            (PpuView { clk, ..s }, Mmio { irq: m.irq | req, ..m })
        }
    }

    /// The bound on the next event lies before every event that is scheduled;
    /// 0 stands for no bound.
    pub open spec fn sched_sound(self) -> bool {
        self.clk.sched_min == 0 || self.clk.sched_min <= earlier(
            self.clk.next_irq(),
            self.latch.next_due(),
        )
    }

    /// When the interrupt at the end of mode 3 is due.
    pub open spec fn m0irq_time(self, m: Mmio, first_line: bool) -> int {
        let cgb = m.cgb_features;
        let dots = M0IRQ_OFFSET + (if first_line && !cgb && !m.double_speed {
            M0IRQ_DMG_FIRST_FRAME_OFFSET as int
        } else {
            0
        }) + (if cgb && m.scx % 8 == 2 { M0IRQ_SCX2_CGB_OFFSET as int } else { 0 })
            - self.m0irq_advance(m, cgb);
        match self.m0.m0_time_master {
            Some(m0t) if !stat_clear(self.clk.stat_reg_committed, STAT_M0_IRQ) => {
                at_least_zero_spec(m0t - signed(self.clk.p_now) + dots_to_cycles(
                    dots,
                    m.double_speed,
                ))
            },
            _ => DISABLED_TIME as int,
        }
    }

    pub open spec fn m0irq_advance(self, m: Mmio, is_cgb: bool) -> int {
        imax(
            0,
            self.m3_length_to_target(m, is_cgb, 167) - self.m3_length_to_target(m, is_cgb, 166)
                - 1,
        )
    }

    /// Whole dots for which nothing is due, and which lie before the line's end
    /// shows.
    pub open spec fn mode3_fast_budget(self, m: Mmio) -> int {
        if self.pending.len() > 0 || self.clk.sched_min <= self.clk.abs_cc
            || self.clk.line_cycle >= FAST_LAST_CYCLE || self.ticks >= FAST_LAST_DOT {
            0
        } else {
            imin(
                cycles_to_dots(self.clk.sched_min - self.clk.abs_cc - 1, m.double_speed),
                imin(FAST_LAST_CYCLE - self.clk.line_cycle, FAST_LAST_DOT - self.ticks),
            )
        }
    }

    /// A write to WY reaches the two comparisons after a delay each.
    pub open spec fn on_wy_write(self, value: u8, m: Mmio) -> PpuView {
        let cc = self.write_cc(m.double_speed);
        let s = PpuView {
            latch: Latch {
                wy1_pending: value,
                wy1_apply_cc: (cc + WY1_DELAY) as u64,
                wy2_pending: value,
                wy2_apply_cc: (cc + if m.cgb_features {
                    WY2_DELAY_CGB
                } else {
                    WY2_DELAY_DMG
                }) as u64,
                ..self.latch
            },
            clk: self.clk.touched(),
            ..self
        };
        s.arm_wy_recheck(cc)
    }

    /// Pixels of the line are being put out, and its fetches see the bus.
    pub open spec fn meets_fetches(self, m: Mmio) -> bool {
        !self.disabled && self.state == State::PixelTransfer && !m.cgb_features
    }

    /// A write to SCY reaches the fetcher after a delay. Without CGB mode the
    /// line's fetches see it by their own dots.
    pub open spec fn on_scy_write(self, value: u8, m: Mmio) -> PpuView {
        let cc = self.write_cc(m.double_speed);
        PpuView {
            journal: if self.meets_fetches(m) {
                JournalView {
                    bg_scy_hist: self.journal.bg_scy_hist.push(
                        ((cc + SCY_DELAY) as u64, self.latch.scy_delayed, value),
                    ),
                    ..self.journal
                }
            } else {
                self.journal
            },
            latch: Latch {
                scy_pending: value,
                scy_apply_cc: (cc + SCY_DELAY) as u64,
                ..self.latch
            },
            clk: self.clk.touched(),
            ..self
        }
    }

    /// The background tile in flight has its map column and is not queued yet.
    pub open spec fn tile_in_flight(self) -> bool {
        !self.fetcher.fetching_window && !(self.fetcher.state is TileNumber)
    }

    /// What an SCX write means for the tile in flight: after the first pixel it
    /// may be fetched anew for the new scroll; before it, on a DMG at single
    /// speed with a tile already queued, it is.
    pub open spec fn scroll_rekey(self, value: u8, m: Mmio) -> M3 {
        if self.disabled || self.state != State::PixelTransfer {
            self.m3
        } else {
            M3 {
                subcc_scx_apply_cc: (self.write_cc(m.double_speed) + if m.cgb_features {
                    2int
                } else {
                    0
                }) as u64,
                subcc_scx_old: self.latch.scx_delayed,
                subcc_scx_new: value,
                subcc_rekey_armed: self.tile_in_flight() && self.x > 0,
                prologue_rekey_armed: self.tile_in_flight() && self.x == 0
                    && self.fetcher.fifo.len() > 0 && !m.cgb_features && !m.double_speed,
                ..self.m3
            }
        }
    }

    /// A write to SCX reaches the fetcher, and the fine scroll on its own.
    pub open spec fn on_scx_write(self, value: u8, m: Mmio) -> PpuView {
        let cc = self.write_cc(m.double_speed);
        PpuView {
            journal: if self.meets_fetches(m) {
                JournalView {
                    bg_scx_hist: self.journal.bg_scx_hist.push(
                        (cc as u64, self.latch.scx_delayed, value),
                    ),
                    ..self.journal
                }
            } else {
                self.journal
            },
            m3: self.scroll_rekey(value, m),
            latch: Latch {
                scx_pending: value,
                scx_apply_cc: (cc + SCX_DELAY) as u64,
                scx_prev_f1: self.scx_f1_pending_at_cc(cc as u64),
                scx_f1_apply_cc: (cc + if m.cgb_features { 2int } else { 0 }) as u64,
                scx_f1_new: value,
                ..self.latch
            },
            clk: self.clk.touched(),
            ..self
        }
    }

    /// A STAT write. On DMG, in the first dots of a frame, it takes a request
    /// for vertical blank back; with the LCD off it never does.
    pub open spec fn on_stat_write(self, m: Mmio) -> (PpuView, Mmio) {
        let clk = Clk {
            stat_reg_committed: m.stat,
            lyc_irq: LycIrq {
                stat_reg_src: m.stat,
                stat_reg: m.stat,
                ..self.clk.lyc_irq
            },
            ..self.clk
        };
        if self.disabled {
            (PpuView { clk, ..self }, m)
        } else {
            (
                PpuView { clk: clk.rescheduled(self.ly_counter(m)), ..self },
                Mmio {
                    irq: if !m.is_cgb() && self.clk.l154_vblank_glitch_window {
                        m.irq & !InterruptFlag::VBlank.mask()
                    } else {
                        m.irq
                    },
                    ..m
                },
            )
        }
    }
}

impl Ppu {
    /// Something may be due sooner than was thought.
    pub(crate) fn stat_sched_touched(&mut self)
        requires
            old(self).wf(),
        ensures
            final(self).wf(),
            final(self)@ == (PpuView { clk: old(self)@.clk.touched(), ..old(self)@ }),
    {
        self.clk = Clk { sched_min: 0, fast_dots_left: 0, ..self.clk };
    }

    /// Something may change that drawing has to watch for.
    pub(crate) fn invalidate_fast_span(&mut self)
        requires
            old(self).wf(),
        ensures
            final(self).wf(),
            final(self)@ == (PpuView { clk: old(self)@.clk.fast_span_invalid(), ..old(self)@ }),
    {
        self.clk = Clk { fast_dots_left: 0, fast_hold: FAST_HOLD_DOTS, ..self.clk };
    }

    pub(crate) fn arm_wy_recheck(&mut self, cc: u64)
        requires
            old(self).wf(),
            cc < 2 * CLOCK_LIMIT,
        ensures
            final(self).wf(),
            final(self)@ == old(self)@.arm_wy_recheck(cc as int),
    {
        if !self.win.window_y_triggered {
            self.latch = Latch { wy_recheck_cc: cc + WY_RECHECK_DELAY, ..self.latch };
        }
    }

    pub(crate) fn reschedule_all_stat_events(&mut self, mmio: &Mmio)
        requires
            old(self).wf(),
            old(self)@.in_range(),
        ensures
            final(self).wf(),
            final(self)@ == (PpuView {
                clk: old(self)@.clk.rescheduled(old(self)@.ly_counter(*mmio)),
                ..old(self)@
            }),
    {
        let lc: LyCounter = self.ly_counter(mmio);
        let cc: u64 = self.clk.abs_cc;
        let sched_lycirq: u64 = schedule_lyc_exec(
            self.clk.lyc_irq.stat_reg,
            self.clk.lyc_irq.lyc_reg,
            &lc,
            cc,
        );
        let sched_m1irq: u64 = next_frame_cycle_exec(&lc, 144 * 456 - 2, cc);
        let sched_m2irq: u64 = schedule_m2_exec(self.clk.stat_reg_committed, &lc, cc);
        self.clk = Clk {
            sched_lycirq,
            sched_m1irq,
            sched_m2irq,
            sched_min: 0,
            fast_dots_left: 0,
            ..self.clk
        };
    }

    fn wy_recheck_hits(&self, mmio: &Mmio) -> (r: bool)
        ensures
            r == self@.wy_recheck_hits(*mmio),
    {
        let line: u32 = if mmio.is_cgb_features_enabled() && !mmio.is_double_speed_mode()
            && self.ticks >= CGB_WY_RAW_LY_INC_DOT {
            mmio.ly as u32 + 1
        } else {
            mmio.ly as u32
        };
        self.latch.wy_recheck_cc <= self.clk.abs_cc && self.lcdc_has(
            LCDCFlags::WindowDisplayEnable,
        ) && self.ticks >= WY_RECHECK_LY_VALID_DOT && line == self.latch.wy1 as u32
    }

    fn run_wy_recheck(&mut self, mmio: &Mmio)
        requires
            old(self).wf(),
        ensures
            final(self).wf(),
            final(self)@ == old(self)@.run_wy_recheck(*mmio),
    {
        let hits = self.wy_recheck_hits(mmio);
        let next: u64 = if self.latch.wy_recheck_cc <= self.clk.abs_cc {
            DISABLED_TIME
        } else {
            self.latch.wy_recheck_cc
        };
        self.latch = Latch { wy_recheck_cc: next, ..self.latch };
        self.win = Win {
            window_y_triggered: self.win.window_y_triggered || hits,
            ..self.win
        };
    }

    fn apply_due_writes(&mut self, mmio: &Mmio)
        requires
            old(self).wf(),
        ensures
            final(self).wf(),
            final(self)@ == old(self)@.due_writes(*mmio),
            final(self)@.clk == old(self)@.clk,
    {
        reveal(PpuView::due_writes);
        self.latch = self.latch.apply(self.clk.abs_cc);
        self.run_wy_recheck(mmio);
    }

    fn find_due_irqs(&self, lc: &LyCounter, lyc: u8) -> (r: (Clk, u8))
        requires
            lc.ly < 154,
            self@.clk.abs_cc <= lc.time < 2 * CLOCK_LIMIT,
        ensures
            r == self@.due_irqs(*lc, lyc),
            r.0.line_cycle == self@.clk.line_cycle,
            r.0.internal_ly_val == self@.clk.internal_ly_val,
    {
        reveal(PpuView::due_irqs);
        let (clk, req): (Clk, u8) = self.clk.do_irq_events(lc, lyc);
        proof {
            lemma_irq_events_keep_line(self.clk, *lc, lyc);
        }
        let due: u64 = earlier(clk.find_next_irq(), self.latch.find_next_due());
        (Clk { sched_min: due, ..clk }, req)
    }

    pub(crate) fn dispatch_stat_events(&mut self, mmio: &mut Mmio)
        requires
            old(self).wf(),
            old(self)@.in_range(),
        ensures
            final(self).wf(),
            (final(self)@, *final(mmio)) == old(self)@.dispatch_stat_events(*old(mmio)),
    {
        if self.clk.sched_min != 0 && self.clk.abs_cc < self.clk.sched_min {
            return;
        }
        let lc: LyCounter = self.ly_counter(mmio);
        self.apply_due_writes(mmio);
        let (clk, req): (Clk, u8) = self.find_due_irqs(&lc, mmio.lyc);
        self.clk = clk;
        mmio.irq = mmio.irq | req;
    }

    /// Schedules the interrupt at the end of the line's mode 3.
    pub(crate) fn arm_m0irq_for_current_line(&mut self, mmio: &Mmio, first_line: bool)
        requires
            old(self).wf(),
            old(self)@.in_range(),
        ensures
            final(self).wf(),
            final(self)@ == (PpuView {
                clk: Clk {
                    sched_m0irq: old(self)@.m0irq_time(*mmio, first_line) as u64,
                    ..old(self)@.clk.touched()
                },
                ..old(self)@
            }),
    {
        let cgb = mmio.is_cgb_features_enabled();
        let ds = mmio.is_double_speed_mode();
        let advance: i64 = self.m0irq_xpos166_advance(mmio, cgb);
        let dots: i64 = M0IRQ_OFFSET + (if first_line && !cgb && !ds {
            M0IRQ_DMG_FIRST_FRAME_OFFSET
        } else {
            0
        }) + (if cgb && mmio.scx % 8 == 2 { M0IRQ_SCX2_CGB_OFFSET } else { 0 }) - advance;
        let time: u64 = match self.m0.m0_time_master {
            Some(m0t) if !stat_clear(self.clk.stat_reg_committed, STAT_M0_IRQ) => {
                at_least_zero(m0t as i64 - as_signed(self.clk.p_now) + scaled(dots, ds))
            },
            _ => DISABLED_TIME,
        };
        self.clk = Clk { sched_m0irq: time, sched_min: 0, fast_dots_left: 0, ..self.clk };
    }

    pub fn mode3_fast_budget(&self, mmio: &Mmio) -> (r: u32)
        requires
            self@.wf(),
        ensures
            r == self@.mode3_fast_budget(*mmio),
    {
        if self.pending.len() > 0 || self.clk.sched_min <= self.clk.abs_cc
            || self.clk.line_cycle >= FAST_LAST_CYCLE || self.ticks >= FAST_LAST_DOT {
            return 0;
        }
        let slack: u64 = to_dots(
            self.clk.sched_min - self.clk.abs_cc - 1,
            mmio.is_double_speed_mode(),
        );
        let cycles: u64 = (FAST_LAST_CYCLE - self.clk.line_cycle) as u64;
        let dots: u64 = (FAST_LAST_DOT - self.ticks) as u64;
        earlier(slack, earlier(cycles, dots)) as u32
    }

    /// Takes note of a STAT write that has just been made.
    pub fn on_stat_register_write(&mut self, mmio: &mut Mmio)
        requires
            old(self).wf(),
            old(self)@.in_range(),
        ensures
            final(self).wf(),
            (final(self)@, *final(mmio)) == old(self)@.on_stat_write(*old(mmio)),
    {
        let stat: u8 = mmio.stat;
        self.clk = Clk {
            stat_reg_committed: stat,
            lyc_irq: LycIrq { stat_reg_src: stat, stat_reg: stat, ..self.clk.lyc_irq },
            ..self.clk
        };
        if self.disabled {
            return;
        }
        if !mmio.is_cgb() && self.clk.l154_vblank_glitch_window {
            mmio.irq = mmio.irq & !InterruptFlag::VBlank.mask();
        }
        self.reschedule_all_stat_events(mmio);
    }

    /// Takes note of a WY write.
    pub fn on_wy_write(&mut self, value: u8, mmio: &Mmio)
        requires
            old(self).wf(),
            old(self)@.in_range(),
        ensures
            final(self).wf(),
            final(self)@ == old(self)@.on_wy_write(value, *mmio),
    {
        let cc: u64 = self.write_cc(mmio.is_double_speed_mode());
        let delay: u64 = if mmio.is_cgb_features_enabled() { WY2_DELAY_CGB } else { WY2_DELAY_DMG };
        self.latch = Latch {
            wy1_pending: value,
            wy1_apply_cc: cc + WY1_DELAY,
            wy2_pending: value,
            wy2_apply_cc: cc + delay,
            ..self.latch
        };
        self.stat_sched_touched();
        self.arm_wy_recheck(cc);
    }

    /// Takes note of an SCY write.
    pub fn on_scy_write(&mut self, value: u8, mmio: &Mmio)
        requires
            old(self).wf(),
            old(self)@.in_range(),
        ensures
            final(self).wf(),
            final(self)@ == old(self)@.on_scy_write(value, *mmio),
    {
        let cc: u64 = self.write_cc(mmio.is_double_speed_mode());
        if self.meets_fetches(mmio) {
            self.journal.push_scy(cc + SCY_DELAY, self.latch.scy_delayed, value);
        }
        self.latch = Latch { scy_pending: value, scy_apply_cc: cc + SCY_DELAY, ..self.latch };
        self.stat_sched_touched();
    }

    fn scroll_rekey(&self, value: u8, mmio: &Mmio) -> (r: M3)
        requires
            self.wf(),
            self@.in_range(),
        ensures
            r == self@.scroll_rekey(value, *mmio),
    {
        if self.disabled || self.state != State::PixelTransfer {
            return self.m3;
        }
        let cgb = mmio.is_cgb_features_enabled();
        let ds = mmio.is_double_speed_mode();
        let cc: u64 = self.write_cc(ds);
        let flying = !self.fetcher.is_fetching_window()
            && !self.fetcher.fetch_state_is_tile_number();
        M3 {
            subcc_scx_apply_cc: if cgb { cc + 2 } else { cc },
            subcc_scx_old: self.latch.scx_delayed,
            subcc_scx_new: value,
            subcc_rekey_armed: flying && self.x > 0,
            prologue_rekey_armed: flying && self.x == 0 && self.fetcher.get_fifo_size() > 0 && !cgb
                && !ds,
            ..self.m3
        }
    }

    fn meets_fetches(&self, mmio: &Mmio) -> (r: bool)
        ensures
            r == self@.meets_fetches(*mmio),
    {
        !self.disabled && self.state == State::PixelTransfer && !mmio.is_cgb_features_enabled()
    }

    /// Takes note of an SCX write. The fine scroll sees it at once on DMG, two
    /// cycles later on CGB.
    pub fn on_scx_write(&mut self, value: u8, mmio: &Mmio)
        requires
            old(self).wf(),
            old(self)@.in_range(),
        ensures
            final(self).wf(),
            final(self)@ == old(self)@.on_scx_write(value, *mmio),
    {
        let cc: u64 = self.write_cc(mmio.is_double_speed_mode());
        let prev: u8 = self.scx_f1_pending_at_cc(cc);
        let visible: u64 = if mmio.is_cgb_features_enabled() { cc + 2 } else { cc };
        let m3: M3 = self.scroll_rekey(value, mmio);
        if self.meets_fetches(mmio) {
            self.journal.push_scx(cc, self.latch.scx_delayed, value);
        }
        self.m3 = m3;
        self.latch = Latch {
            scx_pending: value,
            scx_apply_cc: cc + SCX_DELAY,
            scx_prev_f1: prev,
            scx_f1_apply_cc: visible,
            scx_f1_new: value,
            ..self.latch
        };
        self.stat_sched_touched();
    }
}

/// Interrupt events move no counter.
pub proof fn lemma_irq_events_keep_line(clk: Clk, lc: LyCounter, lyc: u8)
    ensures
        clk.irq_events(lc, lyc).0.line_cycle == clk.line_cycle,
        clk.irq_events(lc, lyc).0.internal_ly_val == clk.internal_ly_val,
        clk.irq_events(lc, lyc).0.abs_cc == clk.abs_cc,
        clk.irq_events(lc, lyc).0.p_now == clk.p_now,
        clk.irq_events(lc, lyc).0.display_enable_inactive_until
            == clk.display_enable_inactive_until,
{
    reveal(Clk::m1_event);
    reveal(Clk::lyc_event);
    reveal(Clk::m2_event);
    reveal(Clk::m0_event);
    reveal(Clk::oneshot_event);
}

/// Dispatching events moves no counter and no pixel.
pub proof fn law_dispatch_keeps_the_line(s: PpuView, m: Mmio)
    ensures
        ({
            let (t, n) = s.dispatch_stat_events(m);
            &&& t.clk.line_cycle == s.clk.line_cycle
            &&& t.clk.internal_ly_val == s.clk.internal_ly_val
            &&& t.clk.abs_cc == s.clk.abs_cc
            &&& t.clk.p_now == s.clk.p_now
            &&& t.frames == s.frames
            &&& t.fetcher == s.fetcher
            &&& t.ticks == s.ticks
            &&& t.state == s.state
            &&& t.disabled == s.disabled
            &&& t.m0 == s.m0
            &&& s.in_range() ==> t.in_range()
            &&& n == (Mmio { irq: n.irq, ..m })
        }),
{
    reveal(PpuView::due_writes);
    reveal(PpuView::due_irqs);
    lemma_irq_events_keep_line(s.clk, s.ly_counter(m), m.lyc);
}

proof fn lemma_no_irq_due(clk: Clk, lc: LyCounter, lyc: u8)
    requires
        clk.abs_cc < clk.next_irq(),
    ensures
        clk.irq_events(lc, lyc) == (clk, 0u8),
{
    reveal(Clk::next_irq);
    reveal(Clk::m1_event);
    reveal(Clk::lyc_event);
    reveal(Clk::m2_event);
    reveal(Clk::m0_event);
    reveal(Clk::oneshot_event);
    assert(0u8 | 0u8 | 0u8 | 0u8 | 0u8 == 0u8) by (bit_vector);
}

proof fn lemma_no_write_due(s: PpuView, m: Mmio)
    requires
        s.clk.abs_cc < s.latch.next_due(),
    ensures
        s.due_writes(m) == s,
{
    reveal(Latch::next_due);
    reveal(Latch::applied);
    reveal(PpuView::due_writes);
    assert(s.latch.applied(s.clk.abs_cc) == s.latch);
}

/// Where the bound on the next event lets a dispatch be skipped, it would have
/// done nothing.
pub proof fn law_skipped_dispatch_misses_nothing(s: PpuView, m: Mmio)
    requires
        s.sched_sound(),
        s.clk.sched_min != 0,
        s.clk.abs_cc < s.clk.sched_min,
    ensures
        s.due_writes(m) == s,
        s.due_irqs(s.ly_counter(m), m.lyc) == (
            Clk { sched_min: earlier(s.clk.next_irq(), s.latch.next_due()), ..s.clk },
            0u8,
        ),
{
    lemma_no_write_due(s, m);
    lemma_no_irq_due(s.clk, s.ly_counter(m), m.lyc);
    reveal(PpuView::due_irqs);
}

/// Where no event moves, the bound on the next one holds on.
pub proof fn lemma_events_stay(s: PpuView, t: PpuView)
    requires
        s.sched_sound(),
        t.clk.sched_min == s.clk.sched_min,
        t.clk.sched_lycirq == s.clk.sched_lycirq,
        t.clk.sched_m1irq == s.clk.sched_m1irq,
        t.clk.sched_m2irq == s.clk.sched_m2irq,
        t.clk.sched_m0irq == s.clk.sched_m0irq,
        t.clk.sched_oneshot_statirq == s.clk.sched_oneshot_statirq,
        t.latch.wy1_apply_cc == s.latch.wy1_apply_cc,
        t.latch.wy2_apply_cc == s.latch.wy2_apply_cc,
        t.latch.scy_apply_cc == s.latch.scy_apply_cc,
        t.latch.scx_apply_cc == s.latch.scx_apply_cc,
        t.latch.wy_recheck_cc == s.latch.wy_recheck_cc,
    ensures
        t.sched_sound(),
{
    reveal(Clk::next_irq);
    reveal(Latch::next_due);
}

/// A STAT write with the LCD off leaves the requested interrupts as they are.
pub proof fn law_stat_write_lcd_off_keeps_requests(s: PpuView, m: Mmio)
    requires
        s.disabled,
    ensures
        s.on_stat_write(m).1 == m,
{
}

/// On CGB hardware a STAT write never takes a request back.
pub proof fn law_stat_write_on_cgb_keeps_requests(s: PpuView, m: Mmio)
    requires
        m.is_cgb(),
    ensures
        s.on_stat_write(m).1 == m,
{
}

/// Scheduled events lie ahead, a frame away at most; the scan interrupt, in the
/// part of the frame that is drawn, a line away at most.
pub proof fn law_events_lie_ahead(stat: u8, lyc: u8, lc: LyCounter, cc: int)
    requires
        lc.ly < 154,
        0 <= cc < lc.time <= cc + dots_to_cycles(456, lc.ds),
    ensures
        ({
            let t = schedule_lyc(stat, lyc, lc, cc);
            t == DISABLED_TIME || 0 < t - cc <= dots_to_cycles(70224, lc.ds)
        }),
        ({
            let t = schedule_m2(stat, lc, cc);
            t == DISABLED_TIME || 0 < t - cc <= dots_to_cycles(70224, lc.ds)
        }),
        !stat_clear(stat, STAT_M2_IRQ) && stat_clear(stat, STAT_M0_IRQ) && next_frame_cycle(
            lc,
            154 * 456 - 3,
            cc,
        ) - cc > dots_to_cycles(M2IRQ_PAUSE as int, lc.ds) ==> 0 < schedule_m2(stat, lc, cc) - cc
            <= dots_to_cycles(456, lc.ds),
{
    reveal(schedule_lyc);
    reveal(schedule_m2);
}

} // verus!
