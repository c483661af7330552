//! One dot of the picture unit.

use vstd::prelude::*;

use crate::fetcher::tile_map_base;
use crate::mmio::Mmio;
use crate::modes::LINE_153_LY_ZERO_DOT;
use crate::phases::{lemma_mode2_keeps, lemma_mode3_keeps};
use crate::power::{stat_with_lyc, stat_with_mode};
use crate::regs::{
    lcdc_has, signed, LCDCFlags, CLOCK_LIMIT, DISABLED_TIME, DMG_PIXEL_TRANSFER_ARM_DOT,
    LCD_CYCLES_PER_LINE,
};
use crate::stat_irq::law_dispatch_keeps_the_line;
use crate::state::{Clk, LycIrq, MStatIrq, Plot, Ppu, PpuView, SpeedPhase, State};

verus! {

impl PpuView {
    /// While lines are drawn LY is one of them.
    pub open spec fn on_screen(self, m: Mmio) -> bool {
        !self.disabled && self.state != State::VBlank ==> m.ly < 144
    }

    /// Drawing goes fast for as many dots as nothing else can happen, except
    /// right after something has changed. `true` when this dot is one of them.
    #[verifier::opaque]
    pub open spec fn fast_gate(self, m: Mmio) -> (Clk, bool) {
        let left = if self.clk.fast_hold > 0 {
            0
        } else if self.clk.fast_dots_left == 0 {
            self.mode3_fast_budget(m) as u32
        } else {
            self.clk.fast_dots_left
        };
        if self.state != State::PixelTransfer {
            (self.clk, false)
        } else {
            (
                Clk {
                    fast_hold: if self.clk.fast_hold > 0 {
                        (self.clk.fast_hold - 1) as u8
                    } else {
                        0
                    },
                    fast_dots_left: if left > 0 { (left - 1) as u32 } else { 0 },
                    ..self.clk
                },
                left > 0,
            )
        }
    }

    /// The clock moves on by a dot: from the last dot of a line to the first of
    /// the next, from the last line of a frame to the first.
    #[verifier::opaque]
    pub open spec fn advanced_clock(self, m: Mmio, fast: bool) -> Clk {
        let wraps = self.clk.line_cycle + 1 >= 456;
        let line_cycle = if wraps { 0 } else { (self.clk.line_cycle + 1) as u32 };
        let ly = if !wraps {
            self.clk.internal_ly_val
        } else if self.clk.internal_ly_val + 1 >= 154 {
            0
        } else {
            (self.clk.internal_ly_val + 1) as u8
        };
        Clk {
            abs_cc: m.master_cc.wrapping_sub(self.clk.p_now),
            line_cycle,
            internal_ly_val: ly,
            l154_vblank_glitch_window: self.clk.l154_vblank_glitch_window && (fast || !(ly > 1 || (ly
                == 1 && line_cycle > 4))),
            ..self.clk
        }
    }

    /// The LYC flag, unless nothing can have changed.
    pub open spec fn lyc_flagged(self, m: Mmio, fast: bool) -> Mmio {
        if fast {
            m
        } else {
            Mmio {
                stat: stat_with_lyc(m.stat, m.lyc == self.effective_ly_for_lyc_compare(m)),
                ..m
            }
        }
    }

    /// Events come due, and the clock moves on. `true` when the dot is fast.
    #[verifier::opaque]
    pub open spec fn dot_clock(self, m: Mmio) -> (PpuView, Mmio, bool) {
        let (clk, fast) = self.fast_gate(m);
        let s1 = PpuView { clk, ..self };
        let (s2, m2) = if fast { (s1, m) } else { s1.dispatch_stat_events(m) };
        (PpuView { clk: s2.advanced_clock(m2, fast), ..s2 }, m2, fast)
    }

    /// What happens before the mode's own work.
    #[verifier::opaque]
    pub open spec fn dot_preamble(self, m: Mmio) -> (PpuView, Mmio, bool) {
        let (s1, m1, fast) = self.dot_clock(m);
        let (s2, m2) = s1.oam_reader_events(m1);
        let m3 = s2.lyc_flagged(m2, fast);
        (if fast { s2 } else { s2.update_window_y_latch(m3) }, m3, fast)
    }

    /// The mode's own work; `true` when it ended a line of its own accord.
    #[verifier::opaque]
    pub open spec fn dot_of_mode(self, m: Mmio, fast: bool) -> (PpuView, Mmio, bool) {
        match self.state {
            State::OAMSearch => {
                let (s, n) = self.step_mode2(m);
                (s, n, false)
            },
            State::PixelTransfer => {
                let (s, n) = self.step_mode3_dot(m, fast);
                (s, n, false)
            },
            State::HBlank => self.step_hblank(m),
            State::VBlank => self.step_vblank(m),
        }
    }

    /// The palettes reach drawing a dot late, and BGP later still where a write
    /// was held back.
    pub open spec fn dot_end(self, m: Mmio) -> PpuView {
        PpuView {
            plot: Plot {
                bgp_defer_countdown: if self.plot.bgp_defer_countdown > 0 {
                    (self.plot.bgp_defer_countdown - 1) as u8
                } else {
                    0
                },
                bgp_delayed: if self.plot.bgp_defer_countdown > 0 {
                    self.plot.bgp_defer_hold
                } else {
                    m.bgp
                },
                obp0_delayed: m.obp0,
                obp1_delayed: m.obp1,
                ..self.plot
            },
            ticks: (self.ticks + 1) as u128,
            ..self
        }
    }

    /// A dot with the LCD on.
    pub open spec fn run_dot(self, m: Mmio) -> (PpuView, Mmio) {
        let (s, n, fast) = self.dot_preamble(m);
        let (t, k, ended) = s.dot_of_mode(n, fast);
        if ended { (t, k) } else { (t.dot_end(k), k) }
    }

    /// One dot. The LCD is switched on when the register says so, and off when
    /// the visible register does.
    #[verifier::opaque]
    pub open spec fn step(self, m: Mmio) -> (PpuView, Mmio) {
        if self.disabled {
            if lcdc_has(m.lcdc, LCDCFlags::DisplayEnable) {
                let (s, n) = self.enter_lcd_enabled(m);
                s.run_dot(n)
            } else {
                (self, m)
            }
        } else if !self.lcdc_has(LCDCFlags::DisplayEnable) {
            self.enter_lcd_disabled(m)
        } else {
            self.run_dot(m)
        }
    }

    /// The address of the tile map entry that a DMG reads ahead of drawing.
    pub open spec fn prefetch_addr(self, m: Mmio) -> int {
        tile_map_base(self.lcdc_has(LCDCFlags::BGTileMapDisplaySelect)) + ((
        self.clk.internal_ly_val + m.scy) / 8 % 32) * 32 + m.scx / 8
    }

    /// The video memory bus as a DMA finds it.
    pub open spec fn dma_fetcher_bus(self, m: Mmio) -> Mmio {
        let on = !self.disabled && self.lcdc_has(LCDCFlags::DisplayEnable);
        let prefetch = on && !m.cgb_features && self.state == State::OAMSearch
            && !self.clk.first_line_after_enable && DMG_PIXEL_TRANSFER_ARM_DOT - 4 <= self.ticks
            < DMG_PIXEL_TRANSFER_ARM_DOT;
        Mmio {
            fetcher_bus: (
                self.fetcher.last_vram_addr,
                self.fetcher.last_vram_bank,
                on && self.state == State::PixelTransfer,
            ),
            prefetch_bus: if prefetch { (self.prefetch_addr(m) as u16, true) } else { (0, false) },
            ..m
        }
    }

    /// Where in the frame the boot ROM leaves off.
    pub open spec fn post_bios_cycle(m: Mmio, dmg0: bool) -> int {
        if m.cgb_features {
            144 * 456 + 164 + if m.is_agb() { 4int } else { 0 }
        } else if dmg0 {
            145int * 456 + 198
        } else {
            153int * 456 + 396
        }
    }

    /// The bus as the boot ROM leaves it.
    pub open spec fn post_bios_bus(m: Mmio, ly_reg: u8) -> Mmio {
        Mmio {
            ly: ly_reg,
            stat: stat_with_lyc(stat_with_mode(m.stat, 1), m.lyc == ly_reg),
            ..m
        }
    }

    /// The clock as the boot ROM leaves it, at dot `cycle` of line `ly`.
    #[verifier::opaque]
    pub open spec fn post_bios_clock(self, n: Mmio, ly: u8, cycle: u32) -> Clk {
        Clk {
            internal_ly_val: ly,
            line_cycle: cycle,
            first_line_after_enable: false,
            line_153_ly_zeroed: ly == 153 && cycle >= LINE_153_LY_ZERO_DOT,
            abs_cc: 0,
            p_now: n.master_cc,
            stat_reg_committed: n.stat,
            lyc_irq: LycIrq {
                lyc_reg_src: n.lyc,
                stat_reg_src: n.stat,
                lyc_reg: n.lyc,
                stat_reg: n.stat,
                cgb: n.is_cgb(),
            },
            mstat_irq: MStatIrq { lyc_reg: n.lyc, stat_reg: n.stat },
            ..self.clk
        }
    }

    /// The state as the boot ROM leaves it; only with the LCD on.
    pub open spec fn post_bios(self, m: Mmio, dmg0: bool) -> (PpuView, Mmio) {
        let at = PpuView::post_bios_cycle(m, dmg0);
        let ly = (at / 456) as u8;
        let cycle = (at % 456) as u32;
        let zeroed = ly == 153 && cycle >= LINE_153_LY_ZERO_DOT;
        let n = PpuView::post_bios_bus(m, if zeroed { 0 } else { ly });
        let s = PpuView {
            disabled: false,
            ticks: cycle as u128,
            state: State::VBlank,
            clk: self.post_bios_clock(n, ly, cycle),
            speed: SpeedPhase {
                lytime_no_plus1: false,
                ssds_mode3_ly_advance: false,
                ..self.speed
            },
            latch: self.enabled_latch(n),
            ..self
        };
        if !self.lcdc_has(LCDCFlags::DisplayEnable) {
            (self, m)
        } else {
            (
                PpuView {
                    clk: Clk {
                        sched_m0irq: DISABLED_TIME,
                        sched_oneshot_statirq: DISABLED_TIME,
                        ..s.clk.rescheduled(s.ly_counter(n))
                    },
                    ..s
                },
                n,
            )
        }
    }
}

impl Ppu {
    fn fast_gate(&mut self, mmio: &Mmio) -> (r: bool)
        requires
            old(self).wf(),
            old(self)@.in_range(),
        ensures
            final(self).wf(),
            final(self)@.in_range(),
            final(self)@ == (PpuView { clk: old(self)@.fast_gate(*mmio).0, ..old(self)@ }),
            r == old(self)@.fast_gate(*mmio).1,
            final(self)@.clk.p_now == old(self)@.clk.p_now,
    {
        reveal(PpuView::fast_gate);
        if self.state != State::PixelTransfer {
            return false;
        }
        let hold: u8 = self.clk.fast_hold;
        let left: u32 = if hold > 0 {
            0
        } else if self.clk.fast_dots_left == 0 {
            self.mode3_fast_budget(mmio)
        } else {
            self.clk.fast_dots_left
        };
        self.clk = Clk {
            fast_hold: if hold > 0 { hold - 1 } else { 0 },
            fast_dots_left: if left > 0 { left - 1 } else { 0 },
            ..self.clk
        };
        left > 0
    }

    fn advance_clock(&mut self, mmio: &Mmio, fast: bool)
        requires
            old(self).wf(),
            old(self)@.in_range(),
            mmio.master_cc < CLOCK_LIMIT,
            0 <= mmio.master_cc - signed(old(self)@.clk.p_now) < CLOCK_LIMIT,
        ensures
            final(self).wf(),
            final(self)@.in_range(),
            final(self)@ == (PpuView {
                clk: old(self)@.advanced_clock(*mmio, fast),
                ..old(self)@
            }),
    {
        reveal(PpuView::advanced_clock);
        let mut line_cycle: u32 = self.clk.line_cycle + 1;
        let mut ly: u8 = self.clk.internal_ly_val;
        if line_cycle >= LCD_CYCLES_PER_LINE {
            line_cycle = 0;
            ly = if ly + 1 >= 154 { 0 } else { ly + 1 };
        }
        let window = self.clk.l154_vblank_glitch_window && (fast || !(ly > 1 || (ly == 1
            && line_cycle > 4)));
        self.clk = Clk {
            abs_cc: mmio.master_cc().wrapping_sub(self.clk.p_now),
            line_cycle,
            internal_ly_val: ly,
            l154_vblank_glitch_window: window,
            ..self.clk
        };
    }

    fn dot_clock(&mut self, mmio: &mut Mmio) -> (r: bool)
        requires
            old(self).wf(),
            old(self)@.in_range(),
            old(mmio).master_cc < CLOCK_LIMIT,
            0 <= old(mmio).master_cc - signed(old(self)@.clk.p_now) < CLOCK_LIMIT,
        ensures
            final(self).wf(),
            final(self)@.in_range(),
            (final(self)@, *final(mmio), r) == old(self)@.dot_clock(*old(mmio)),
            final(self)@.state == old(self)@.state,
            final(self)@.disabled == old(self)@.disabled,
            final(self)@.m0 == old(self)@.m0,
            *final(mmio) == (Mmio { irq: final(mmio).irq, ..*old(mmio) }),
    {
        reveal(PpuView::dot_clock);
        let fast = self.fast_gate(mmio);
        if !fast {
            proof {
                law_dispatch_keeps_the_line(self@, *mmio);
            }
            self.dispatch_stat_events(mmio);
        }
        self.advance_clock(mmio, fast);
        fast
    }

    fn flag_lyc(&self, mmio: &mut Mmio, fast: bool)
        ensures
            *final(mmio) == self@.lyc_flagged(*old(mmio), fast),
    {
        if !fast {
            let ly: u8 = self.effective_ly_for_lyc_compare(mmio);
            let met = mmio.lyc == ly;
            Self::set_lyc_flag(mmio, met);
        }
    }

    fn dot_preamble(&mut self, mmio: &mut Mmio) -> (r: bool)
        requires
            old(self).wf(),
            old(self)@.in_range(),
            old(mmio).master_cc < CLOCK_LIMIT,
            0 <= old(mmio).master_cc - signed(old(self)@.clk.p_now) < CLOCK_LIMIT,
        ensures
            final(self).wf(),
            final(self)@.in_range(),
            (final(self)@, *final(mmio), r) == old(self)@.dot_preamble(*old(mmio)),
            final(self)@.state == old(self)@.state,
            final(self)@.disabled == old(self)@.disabled,
            final(self)@.m0 == old(self)@.m0,
            final(mmio).ly == old(mmio).ly,
            final(mmio).master_cc == old(mmio).master_cc,
            old(mmio).wf() ==> final(mmio).wf(),
    {
        reveal(PpuView::dot_preamble);
        let fast = self.dot_clock(mmio);
        self.process_oam_reader_events(mmio);
        self.flag_lyc(mmio, fast);
        if !fast {
            self.update_window_y_latch(mmio);
        }
        fast
    }

    fn dot_of_mode(&mut self, mmio: &mut Mmio, fast: bool) -> (r: bool)
        requires
            old(self).wf(),
            old(self)@.in_range(),
            old(self)@.m0.below(4 * CLOCK_LIMIT),
            old(mmio).wf(),
            old(mmio).master_cc < CLOCK_LIMIT,
            !old(self)@.disabled,
            old(self)@.on_screen(*old(mmio)),
        ensures
            final(self).wf(),
            (final(self)@, *final(mmio), r) == old(self)@.dot_of_mode(*old(mmio), fast),
            !r ==> final(self)@.ticks == old(self)@.ticks,
            final(self)@.on_screen(*final(mmio)),
            final(mmio).wf(),
    {
        reveal(PpuView::dot_of_mode);
        proof {
            lemma_mode2_keeps(self@, *mmio);
            lemma_mode3_keeps(self@, *mmio, fast);
            if self.state == State::HBlank {
                lemma_hblank_on_screen(self@, *mmio);
            }
            if self.state == State::VBlank {
                lemma_vblank_on_screen(self@, *mmio);
            }
        }
        match self.state {
            State::OAMSearch => {
                self.step_mode2(mmio);
                false
            },
            State::PixelTransfer => {
                self.step_mode3_dot(mmio, fast);
                false
            },
            State::HBlank => self.step_hblank(mmio),
            State::VBlank => self.step_vblank(mmio),
        }
    }

    fn dot_end(&mut self, mmio: &Mmio)
        requires
            old(self).wf(),
            old(self)@.ticks < CLOCK_LIMIT,
        ensures
            final(self).wf(),
            final(self)@ == old(self)@.dot_end(*mmio),
    {
        let held = self.plot.bgp_defer_countdown;
        self.plot = Plot {
            bgp_defer_countdown: if held > 0 { held - 1 } else { 0 },
            bgp_delayed: if held > 0 { self.plot.bgp_defer_hold } else { mmio.bgp },
            obp0_delayed: mmio.obp0,
            obp1_delayed: mmio.obp1,
            ..self.plot
        };
        self.ticks = self.ticks + 1;
    }

    fn run_dot(&mut self, mmio: &mut Mmio)
        requires
            old(self).wf(),
            old(self)@.in_range(),
            old(self)@.m0.below(4 * CLOCK_LIMIT),
            old(mmio).wf(),
            old(mmio).master_cc < CLOCK_LIMIT,
            0 <= old(mmio).master_cc - signed(old(self)@.clk.p_now) < CLOCK_LIMIT,
            !old(self)@.disabled,
            old(self)@.on_screen(*old(mmio)),
        ensures
            final(self).wf(),
            (final(self)@, *final(mmio)) == old(self)@.run_dot(*old(mmio)),
            final(self)@.on_screen(*final(mmio)),
            final(mmio).wf(),
    {
        let fast = self.dot_preamble(mmio);
        if !self.dot_of_mode(mmio, fast) {
            self.dot_end(mmio);
        }
    }

    /// Lets one dot pass.
    pub fn step(&mut self, mmio: &mut Mmio)
        requires
            old(self).wf(),
            old(mmio).wf(),
            old(self)@.clocked(*old(mmio), CLOCK_LIMIT as int / 4),
            old(self)@.on_screen(*old(mmio)),
        ensures
            final(self).wf(),
            (final(self)@, *final(mmio)) == old(self)@.step(*old(mmio)),
            final(self)@.on_screen(*final(mmio)),
            final(mmio).wf(),
    {
        reveal(PpuView::step);
        if self.disabled {
            if !lcdc_has(mmio.lcdc, LCDCFlags::DisplayEnable) {
                return;
            }
            proof {
                crate::power::law_switching_on_starts_a_frame(self@, *mmio);
            }
            self.enter_lcd_enabled(mmio);
        } else if !self.lcdc_has(LCDCFlags::DisplayEnable) {
            proof {
                crate::power::law_switching_off_clears_the_line(self@, *mmio);
            }
            self.enter_lcd_disabled(mmio);
            return;
        }
        self.run_dot(mmio);
    }

    /// Shows a DMA where the fetcher is on the video memory bus.
    pub fn update_dma_fetcher_bus(&self, mmio: &mut Mmio)
        requires
            self@.wf(),
        ensures
            *final(mmio) == self@.dma_fetcher_bus(*old(mmio)),
    {
        let lcd_on = !self.disabled && self.lcdc_has(LCDCFlags::DisplayEnable);
        let locked = lcd_on && self.state == State::PixelTransfer;
        let (addr, bank): (u16, u8) = self.fetcher.last_vram_bus();
        mmio.fetcher_bus = (addr, bank, locked);
        let prefetch = lcd_on && !mmio.is_cgb_features_enabled() && self.state == State::OAMSearch
            && !self.clk.first_line_after_enable && DMG_PIXEL_TRANSFER_ARM_DOT - 4 <= self.ticks
            && self.ticks < DMG_PIXEL_TRANSFER_ARM_DOT;
        if prefetch {
            let map_base: u16 = tile_map_base(self.lcdc_has(LCDCFlags::BGTileMapDisplaySelect));
            let bg_y: u16 = self.clk.internal_ly_val as u16 + mmio.scy as u16;
            let map_addr: u16 = map_base + ((bg_y / 8) % 32) * 32 + (mmio.scx / 8) as u16;
            mmio.prefetch_bus = (map_addr, true);
        } else {
            mmio.prefetch_bus = (0, false);
        }
    }

    /// Takes up the frame where the boot ROM leaves off.
    pub fn set_post_bios_state(&mut self, mmio: &mut Mmio, dmg0: bool)
        requires
            old(self).wf(),
            old(self)@.in_range(),
            old(mmio).master_cc < CLOCK_LIMIT,
        ensures
            final(self).wf(),
            (final(self)@, *final(mmio)) == old(self)@.post_bios(*old(mmio), dmg0),
    {
        if !self.lcdc_has(LCDCFlags::DisplayEnable) {
            return;
        }
        let video_cycles: u32 = Self::post_bios_cycle(mmio, dmg0);
        let ly: u8 = (video_cycles / LCD_CYCLES_PER_LINE) as u8;
        let line_cycle: u32 = video_cycles % LCD_CYCLES_PER_LINE;
        let zeroed = ly == 153 && line_cycle >= 6;
        let ly_reg: u8 = if zeroed { 0 } else { ly };
        Self::post_bios_bus(mmio, ly_reg);
        let clk: Clk = self.post_bios_clock(mmio, ly, line_cycle);
        self.disabled = false;
        self.ticks = line_cycle as u128;
        self.state = State::VBlank;
        self.clk = clk;
        self.latch = self.enabled_latch(mmio);
        self.speed = SpeedPhase {
            lytime_no_plus1: false,
            ssds_mode3_ly_advance: false,
            ..self.speed
        };
        self.reschedule_all_stat_events(mmio);
        self.clk = Clk {
            sched_m0irq: DISABLED_TIME,
            sched_oneshot_statirq: DISABLED_TIME,
            ..self.clk
        };
    }

    fn post_bios_bus(mmio: &mut Mmio, ly_reg: u8)
        ensures
            *final(mmio) == PpuView::post_bios_bus(*old(mmio), ly_reg),
    {
        mmio.write_ly_from_ppu(ly_reg);
        Self::set_lcd_status_mode(mmio, 1);
        let met = mmio.lyc == ly_reg;
        Self::set_lyc_flag(mmio, met);
    }

    fn post_bios_cycle(mmio: &Mmio, dmg0: bool) -> (r: u32)
        ensures
            r == PpuView::post_bios_cycle(*mmio, dmg0),
            r / 456 < 154,
    {
        if mmio.is_cgb_features_enabled() {
            144 * LCD_CYCLES_PER_LINE + 164 + (if mmio.is_agb() { 4 } else { 0 })
        } else if dmg0 {
            145 * LCD_CYCLES_PER_LINE + 198
        } else {
            153 * LCD_CYCLES_PER_LINE + 396
        }
    }

    fn post_bios_clock(&self, mmio: &Mmio, ly: u8, line_cycle: u32) -> (r: Clk)
        ensures
            r == self@.post_bios_clock(*mmio, ly, line_cycle),
            r.abs_cc == 0 && r.p_now == mmio.master_cc && r.line_cycle == line_cycle
                && r.internal_ly_val == ly,
            r.display_enable_inactive_until == self@.clk.display_enable_inactive_until,
    {
        reveal(PpuView::post_bios_clock);
        let stat: u8 = mmio.stat;
        let lyc: u8 = mmio.lyc;
        Clk {
            internal_ly_val: ly,
            line_cycle,
            first_line_after_enable: false,
            line_153_ly_zeroed: ly == 153 && line_cycle >= 6,
            abs_cc: 0,
            p_now: mmio.master_cc(),
            stat_reg_committed: stat,
            lyc_irq: self.clk.lyc_irq.set_cgb(mmio.is_cgb()).seed(stat, lyc),
            mstat_irq: self.clk.mstat_irq.seed(stat, lyc),
            ..self.clk
        }
    }
}

proof fn lemma_hblank_on_screen(s: PpuView, m: Mmio)
    requires
        s.state == State::HBlank,
        s.on_screen(m),
    ensures
        ({
            let (t, n, ended) = s.step_hblank(m);
            &&& t.on_screen(n)
            &&& m.wf() ==> n.wf()
            &&& !ended ==> t == s
        }),
{
    reveal(PpuView::enter_vblank);
    reveal(PpuView::enter_scheduled_mode2);
}

proof fn lemma_vblank_on_screen(s: PpuView, m: Mmio)
    requires
        s.state == State::VBlank,
    ensures
        ({
            let (t, n, ended) = s.step_vblank(m);
            &&& t.on_screen(n)
            &&& m.wf() ==> n.wf()
            &&& !ended ==> t.ticks == s.ticks
        }),
{
    reveal(PpuView::zero_line_153);
    reveal(PpuView::next_vblank_line);
    reveal(PpuView::enter_scheduled_mode2);
}

} // verus!
