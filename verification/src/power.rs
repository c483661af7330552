//! Switching the LCD on and off.

use vstd::prelude::*;

use crate::history::HistView;
use crate::line_objs::LineObjsView;
use crate::mmio::{InterruptFlag, Mmio, LCD_RAISE_M1};
use crate::objects::SPRITE_TILE_NONE;
use crate::regs::{dots_to_cycles, signed, LCDCFlags, CLOCK_LIMIT, DISABLED_TIME};
use crate::state::{
    Clk, FrameOut, Latch, LycIrq, MStatIrq, Objs, Ppu, PpuView, SpeedPhase, State, Win, M0, M3,
};

verus! {

/// STAT with the mode bits set to `mode`.
#[verifier::allow_in_spec]
pub fn stat_with_mode(stat: u8, mode: u8) -> u8
    returns
        (stat & 0xFCu8) | (mode & 0x03u8),
{
    (stat & 0xFCu8) | (mode & 0x03u8)
}

/// STAT with the LYC flag set or clear.
#[verifier::allow_in_spec]
pub fn stat_with_lyc(stat: u8, met: bool) -> u8
    returns
        (if met { stat | 0x04u8 } else { stat & 0xFBu8 }),
{
    if met { stat | 0x04u8 } else { stat & 0xFBu8 }
}

impl Ppu {
    /// Shows `mode` in STAT.
    pub fn set_lcd_status_mode(mmio: &mut Mmio, mode: u8)
        ensures
            *final(mmio) == (Mmio { stat: stat_with_mode(old(mmio).stat, mode), ..*old(mmio) }),
    {
        let stat: u8 = stat_with_mode(mmio.stat, mode);
        mmio.write_lcd_status_from_ppu(stat);
    }

    /// Shows in STAT whether LYC is met.
    pub fn set_lyc_flag(mmio: &mut Mmio, met: bool)
        ensures
            *final(mmio) == (Mmio { stat: stat_with_lyc(old(mmio).stat, met), ..*old(mmio) }),
    {
        let stat: u8 = stat_with_lyc(mmio.stat, met);
        mmio.write_lcd_status_from_ppu(stat);
    }
}

impl PpuView {
    /// Everything about the current line and the window forgotten.
    #[verifier::opaque]
    pub open spec fn reset_lcd_pipeline(self) -> PpuView {
        PpuView {
            fetcher: self.fetcher.reset(),
            ticks: 0,
            x: 0,
            line: LineObjsView { sprites: Seq::empty(), recs: Seq::empty(), ..self.line },
            objs: Objs {
                current_oam_sprite_index: 0,
                next_sprite_fetch_index: 0,
                m3_sprite_prev_tile: SPRITE_TILE_NONE,
                m3_last_sprite_commit_tick: 0,
                sprite_fetch_stall: 0,
                pixel_transfer_warmup: 0,
                ..self.objs
            },
            hist: HistView { objen: Seq::empty(), objsize: Seq::empty(), ..self.hist },
            win: Win {
                win_y_pos: 0xFF,
                win_draw_start: false,
                window_y_triggered: false,
                window_started_this_line: false,
                win_weoff_deferred_tail: false,
                ..self.win
            },
            clk: Clk { first_line_after_enable: false, line_153_ly_zeroed: false, ..self.clk },
            m3: M3 { m3_pixels_discarded: 0, ..self.m3 },
            m0: M0 {
                scheduled_mode0_dot: None,
                m0_time_master: None,
                cgbp_block_start_cc: None,
                ..self.m0
            },
            ..self
        }
    }

    /// Switching on with the LYC interrupt enabled and LYC at 0 raises it,
    /// unless the flag is already up.
    pub open spec fn enable_raises_lyc(m: Mmio) -> bool {
        m.stat & 0x40 != 0 && m.lyc == 0 && m.stat & 0x04 == 0
    }

    /// The bus after switching on: line 0, mode 0.
    pub open spec fn enabled_bus(m: Mmio) -> Mmio {
        Mmio {
            ly: 0,
            irq: if PpuView::enable_raises_lyc(m) {
                m.irq | InterruptFlag::Lcd.mask()
            } else {
                m.irq
            },
            stat: stat_with_mode(m.stat, 0),
            ..m
        }
    }

    /// The clock after switching on: line 0, dot 0, and a reading that
    /// continues where it stopped.
    #[verifier::opaque]
    pub open spec fn enabled_clock(self, m: Mmio) -> Clk {
        let stat = stat_with_mode(m.stat, 0);
        Clk {
            first_line_after_enable: true,
            display_enable_inactive_until: m.master_cc.wrapping_add(
                (dots_to_cycles(80, m.double_speed) + 1) as u64,
            ),
            line_cycle: 0,
            internal_ly_val: 0,
            p_now: m.master_cc.wrapping_sub(
                (self.clk.abs_cc + dots_to_cycles(1, m.double_speed)) as u64,
            ),
            stat_reg_committed: stat,
            lyc_irq: LycIrq {
                lyc_reg_src: m.lyc,
                stat_reg_src: stat,
                lyc_reg: m.lyc,
                stat_reg: stat,
                cgb: m.is_cgb(),
            },
            mstat_irq: MStatIrq { lyc_reg: m.lyc, stat_reg: stat },
            ..self.clk
        }
    }

    /// The delayed registers after switching on: no delay.
    pub open spec fn enabled_latch(self, m: Mmio) -> Latch {
        Latch {
            wy2: m.wy,
            wy2_apply_cc: DISABLED_TIME,
            wy1: m.wy,
            wy1_apply_cc: DISABLED_TIME,
            scy_delayed: m.scy,
            scy_apply_cc: DISABLED_TIME,
            scx_delayed: m.scx,
            scx_apply_cc: DISABLED_TIME,
            ..self.latch
        }
    }

    /// The scan's copy after switching on.
    #[verifier::opaque]
    pub open spec fn enabled_reader(self, m: Mmio) -> crate::oam_reader::OamReaderView {
        (crate::oam_reader::OamReaderView {
            cgb: m.cgb_features,
            large_src: self.lcdc_has(LCDCFlags::SpriteSize),
            src_disabled: m.oam_dma_hides_oam(),
            ..self.oam_reader
        }).enable_display(m.master_cc.wrapping_sub(self.clk.p_now), m.double_speed)
    }

    /// The line starts over with the LCD on.
    pub open spec fn enabled_line(self, m: Mmio) -> PpuView {
        let s = self.sync_lcdc(m).reset_lcd_pipeline();
        PpuView {
            disabled: false,
            state: State::OAMSearch,
            out: FrameOut { frames_since_enable: 0, ..s.out },
            ..s
        }
    }

    /// The LCD is switched on.
    pub open spec fn enter_lcd_enabled(self, m: Mmio) -> (PpuView, Mmio) {
        let n = PpuView::enabled_bus(m);
        let s = self.enabled_line(m);
        let t = PpuView {
            clk: s.enabled_clock(m),
            latch: s.enabled_latch(m),
            speed: SpeedPhase {
                lytime_no_plus1: false,
                sc_mode3_pullback_pending: false,
                ..s.speed
            },
            ..s
        };
        let clk = Clk {
            sched_m0irq: DISABLED_TIME,
            sched_oneshot_statirq: DISABLED_TIME,
            ..t.clk.rescheduled(t.ly_counter(n))
        };
        let u = PpuView { clk, ..t };
        (
            PpuView {
                oam_reader: u.enabled_reader(n),
                objs: Objs {
                    prev_dma_writing: n.oam_dma_hides_oam(),
                    oam_reader_seeded: true,
                    ..u.objs
                },
                ..u
            },
            n,
        )
    }

    /// An AGB that is switched off just before vertical blank still has it.
    pub open spec fn off_meets_vblank(self, m: Mmio) -> bool {
        m.is_agb() && !m.double_speed && self.clk.internal_ly_val >= 143 && self.clk.sched_m1irq
            <= self.clk.abs_cc + 4
    }

    #[verifier::opaque]
    pub open spec fn off_vblank(self, m: Mmio) -> (Clk, Mmio) {
        if self.off_meets_vblank(m) {
            let fires = self.clk.mstat_irq.m1_fires();
            (
                Clk {
                    mstat_irq: MStatIrq {
                        stat_reg: self.clk.stat_reg_committed,
                        ..self.clk.mstat_irq
                    },
                    m1_vblank_fired: true,
                    sched_m1irq: self.clk.sched_m1irq.wrapping_add(
                        dots_to_cycles(70224, m.double_speed) as u64,
                    ),
                    ..self.clk
                },
                Mmio {
                    staged_raise_kind: if fires { LCD_RAISE_M1 } else { m.staged_raise_kind },
                    irq: (if fires { m.irq | InterruptFlag::Lcd.mask() } else { m.irq })
                        | InterruptFlag::VBlank.mask(),
                    ..m
                },
            )
        } else {
            (self.clk, m)
        }
    }

    /// The LCD is switched off: line 0, mode 0, nothing pending.
    pub open spec fn enter_lcd_disabled(self, m: Mmio) -> (PpuView, Mmio) {
        let (clk, n) = self.off_vblank(m);
        let s = PpuView { clk, ..self }.reset_lcd_pipeline();
        (
            PpuView {
                disabled: true,
                objs: Objs { oam_reader_seeded: false, ..s.objs },
                ..s
            },
            Mmio {
                ly: 0,
                stat: stat_with_mode(n.stat, 0),
                oam_write_pending: false,
                ..n
            },
        )
    }
}

impl Ppu {
    fn reset_lcd_pipeline(&mut self)
        requires
            old(self).wf(),
        ensures
            final(self).wf(),
            final(self)@ == old(self)@.reset_lcd_pipeline(),
    {
        reveal(PpuView::reset_lcd_pipeline);
        self.fetcher.reset();
        self.ticks = 0;
        self.x = 0;
        self.line.clear();
        self.line.clear_recs();
        self.objs = Objs {
            current_oam_sprite_index: 0,
            next_sprite_fetch_index: 0,
            m3_sprite_prev_tile: SPRITE_TILE_NONE,
            m3_last_sprite_commit_tick: 0,
            sprite_fetch_stall: 0,
            pixel_transfer_warmup: 0,
            ..self.objs
        };
        self.hist.clear_obj();
        self.win = Win {
            win_y_pos: 0xFF,
            win_draw_start: false,
            window_y_triggered: false,
            window_started_this_line: false,
            win_weoff_deferred_tail: false,
            ..self.win
        };
        self.clk = Clk { first_line_after_enable: false, line_153_ly_zeroed: false, ..self.clk };
        self.m3 = M3 { m3_pixels_discarded: 0, ..self.m3 };
        self.m0 = M0 {
            scheduled_mode0_dot: None,
            m0_time_master: None,
            cgbp_block_start_cc: None,
            ..self.m0
        };
    }

    fn enabled_clock(&self, mmio: &Mmio) -> (r: Clk)
        requires
            self@.clk.abs_cc < CLOCK_LIMIT,
            mmio.master_cc < CLOCK_LIMIT,
        ensures
            r == self@.enabled_clock(*mmio),
            r.abs_cc == self@.clk.abs_cc,
            r.line_cycle == 0,
            r.internal_ly_val == 0,
            r.display_enable_inactive_until < 2 * CLOCK_LIMIT,
            -2 * CLOCK_LIMIT < signed(r.p_now) < CLOCK_LIMIT,
            mmio.master_cc - signed(r.p_now) == self@.clk.abs_cc + dots_to_cycles(
                1,
                mmio.double_speed,
            ),
    {
        reveal(PpuView::enabled_clock);
        let ds = mmio.is_double_speed_mode();
        let stat: u8 = stat_with_mode(mmio.stat, 0);
        let lyc: u8 = mmio.lyc;
        let span: u64 = (if ds { 160 } else { 80 }) + 1;
        let dot: u64 = if ds { 2 } else { 1 };
        let lyc_irq: LycIrq = self.clk.lyc_irq.set_cgb(mmio.is_cgb()).seed(stat, lyc).lcd_reset();
        let mstat_irq: MStatIrq = self.clk.mstat_irq.seed(stat, lyc).lcd_reset(
            lyc_irq.lyc_reg_src,
        );
        Clk {
            first_line_after_enable: true,
            display_enable_inactive_until: mmio.master_cc().wrapping_add(span),
            line_cycle: 0,
            internal_ly_val: 0,
            p_now: mmio.master_cc().wrapping_sub(self.clk.abs_cc + dot),
            stat_reg_committed: stat,
            lyc_irq,
            mstat_irq,
            ..self.clk
        }
    }

    pub fn enabled_latch(&self, mmio: &Mmio) -> (r: Latch)
        ensures
            r == self@.enabled_latch(*mmio),
    {
        Latch {
            wy2: mmio.wy,
            wy2_apply_cc: DISABLED_TIME,
            wy1: mmio.wy,
            wy1_apply_cc: DISABLED_TIME,
            scy_delayed: mmio.scy,
            scy_apply_cc: DISABLED_TIME,
            scx_delayed: mmio.scx,
            scx_apply_cc: DISABLED_TIME,
            ..self.latch
        }
    }

    fn enable_oam_reader(&mut self, mmio: &Mmio)
        requires
            old(self).wf(),
            mmio.master_cc < CLOCK_LIMIT,
            0 <= mmio.master_cc - signed(old(self)@.clk.p_now) < 2 * CLOCK_LIMIT,
        ensures
            final(self).wf(),
            final(self)@ == (PpuView {
                oam_reader: old(self)@.enabled_reader(*mmio),
                objs: Objs {
                    prev_dma_writing: mmio.oam_dma_hides_oam(),
                    oam_reader_seeded: true,
                    ..old(self)@.objs
                },
                ..old(self)@
            }),
    {
        reveal(PpuView::enabled_reader);
        let cc: u64 = mmio.master_cc().wrapping_sub(self.clk.p_now);
        let large = self.lcdc_has(LCDCFlags::SpriteSize);
        let dma_writing = mmio.oam_dma_hides_oam();
        self.oam_reader.set_cgb(mmio.is_cgb_features_enabled());
        self.oam_reader.set_large_src(large);
        self.oam_reader.set_src_disabled(dma_writing);
        self.oam_reader.enable_display(cc, mmio.is_double_speed_mode());
        self.objs = Objs {
            prev_dma_writing: dma_writing,
            oam_reader_seeded: true,
            ..self.objs
        };
    }

    fn enable_bus(mmio: &mut Mmio)
        ensures
            *final(mmio) == PpuView::enabled_bus(*old(mmio)),
    {
        let raise = mmio.stat & 0x40 != 0 && mmio.lyc == 0 && mmio.stat & 0x04 == 0;
        mmio.write_ly_from_ppu(0);
        if raise {
            mmio.request_interrupt(InterruptFlag::Lcd);
        }
        Self::set_lcd_status_mode(mmio, 0);
    }

    fn enable_line(&mut self, mmio: &Mmio)
        requires
            old(self).wf(),
            old(self)@.in_range(),
            old(self)@.m0.below(4 * CLOCK_LIMIT),
        ensures
            final(self).wf(),
            final(self)@.in_range(),
            final(self)@ == old(self)@.enabled_line(*mmio),
    {
        self.sync_lcdc_from_mmio(mmio);
        let ghost synced = self@;
        self.reset_lcd_pipeline();
        assert(self@.in_range()) by {
            reveal(PpuView::reset_lcd_pipeline);
        }
        self.disabled = false;
        self.state = State::OAMSearch;
        self.out = FrameOut { frames_since_enable: 0, ..self.out };
    }

    pub(crate) fn enter_lcd_enabled(&mut self, mmio: &mut Mmio)
        requires
            old(self).wf(),
            old(self)@.in_range(),
            old(self)@.m0.below(4 * CLOCK_LIMIT),
            old(mmio).master_cc < CLOCK_LIMIT,
        ensures
            final(self).wf(),
            final(self)@.in_range(),
            (final(self)@, *final(mmio)) == old(self)@.enter_lcd_enabled(*old(mmio)),
            old(mmio).master_cc - signed(final(self)@.clk.p_now) == old(self)@.clk.abs_cc
                + dots_to_cycles(1, old(mmio).double_speed),
    {
        self.enable_line(mmio);
        proof {
            lemma_enabled_line_clock(old(self)@, *mmio);
        }
        let clk: Clk = self.enabled_clock(mmio);
        self.clk = clk;
        self.latch = self.enabled_latch(mmio);
        self.speed = SpeedPhase {
            lytime_no_plus1: false,
            sc_mode3_pullback_pending: false,
            ..self.speed
        };
        Self::enable_bus(mmio);
        self.reschedule_all_stat_events(mmio);
        self.clk = Clk {
            sched_m0irq: DISABLED_TIME,
            sched_oneshot_statirq: DISABLED_TIME,
            ..self.clk
        };
        self.enable_oam_reader(mmio);
    }

    fn off_vblank(&mut self, mmio: &mut Mmio)
        requires
            old(self).wf(),
            old(self)@.clk.abs_cc < CLOCK_LIMIT,
        ensures
            final(self).wf(),
            final(self)@ == (PpuView { clk: old(self)@.off_vblank(*old(mmio)).0, ..old(self)@ }),
            *final(mmio) == old(self)@.off_vblank(*old(mmio)).1,
    {
        reveal(PpuView::off_vblank);
        if mmio.is_agb() && !mmio.is_double_speed_mode() && self.clk.internal_ly_val >= 143
            && self.clk.sched_m1irq <= self.clk.abs_cc + 4 {
            let (mstat_irq, fires): (MStatIrq, bool) = self.clk.mstat_irq.do_m1_event(
                self.clk.stat_reg_committed,
            );
            if fires {
                mmio.staged_raise_kind = LCD_RAISE_M1;
                mmio.request_interrupt(InterruptFlag::Lcd);
            }
            mmio.request_interrupt(InterruptFlag::VBlank);
            self.clk = Clk {
                mstat_irq,
                m1_vblank_fired: true,
                sched_m1irq: self.clk.sched_m1irq.wrapping_add(70224),
                ..self.clk
            };
        }
    }

    pub(crate) fn enter_lcd_disabled(&mut self, mmio: &mut Mmio)
        requires
            old(self).wf(),
            old(self)@.clk.abs_cc < CLOCK_LIMIT,
        ensures
            final(self).wf(),
            (final(self)@, *final(mmio)) == old(self)@.enter_lcd_disabled(*old(mmio)),
    {
        self.off_vblank(mmio);
        self.reset_lcd_pipeline();
        self.disabled = true;
        self.objs = Objs { oam_reader_seeded: false, ..self.objs };
        mmio.write_ly_from_ppu(0);
        Self::set_lcd_status_mode(mmio, 0);
        let _ = mmio.take_oam_write_pending();
    }
}

proof fn lemma_enabled_line_clock(s: PpuView, m: Mmio)
    ensures
        s.enabled_line(m).clk.abs_cc == s.clk.abs_cc,
{
    reveal(PpuView::reset_lcd_pipeline);
    crate::lcdc_write::lemma_visible_keeps_queue(s, m.lcdc, m.cgb_features, m.double_speed);
}

/// Switching off forgets the line: no object, no pixel, no schedule is left,
/// and the bus shows line 0 in mode 0.
pub proof fn law_switching_off_clears_the_line(s: PpuView, m: Mmio)
    ensures
        ({
            let (t, n) = s.enter_lcd_disabled(m);
            &&& t.disabled
            &&& t.ticks == 0 && t.x == 0
            &&& t.line.sprites.len() == 0
            &&& t.fetcher.fifo.len() == 0
            &&& t.m0.m0_time_master is None
            &&& !t.win.window_y_triggered
            &&& n.ly == 0
            &&& n.stat == stat_with_mode(m.stat, 0)
            &&& m.wf() ==> n.wf()
        }),
{
    reveal(PpuView::off_vblank);
    reveal(PpuView::reset_lcd_pipeline);
}

/// Switching on starts at dot 0 of line 0 with the delayed registers current.
pub proof fn law_switching_on_starts_a_frame(s: PpuView, m: Mmio)
    ensures
        ({
            let (t, n) = s.enter_lcd_enabled(m);
            &&& !t.disabled && t.state == State::OAMSearch
            &&& t.ticks == 0 && t.clk.line_cycle == 0 && t.clk.internal_ly_val == 0
            &&& t.clk.first_line_after_enable
            &&& t.latch.scx_delayed == m.scx && t.latch.scy_delayed == m.scy
            &&& t.latch.wy1 == m.wy && t.latch.wy2 == m.wy
            &&& t.out.frames_since_enable == 0
            &&& t.m0.m0_time_master is None && t.m0.scheduled_mode0_dot is None
            &&& n.ly == 0 && n.master_cc == m.master_cc
            &&& m.wf() ==> n.wf()
        }),
{
    reveal(PpuView::reset_lcd_pipeline);
    reveal(PpuView::enabled_clock);
}

} // verus!
