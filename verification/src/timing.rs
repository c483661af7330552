//! Clock readings derived from the line counter.

use vstd::prelude::*;

use crate::arith::to_dots_signed;
use crate::ly_counter::LyCounter;
use crate::mmio::Mmio;
use crate::regs::{
    as_signed, at_least_zero, at_least_zero_spec, cycles_to_dots, dots_to_cycles, scaled, signed,
    CLOCK_LIMIT, DISABLED_TIME, LCD_CYCLES_PER_LINE,
};
use crate::state::{Ppu, PpuView};

verus! {

impl PpuView {
    /// Reads land one cycle after the line change, unless a speed switch took
    /// that cycle.
    pub open spec fn ly_plus1(self) -> int {
        if self.speed.lytime_no_plus1 { 0 } else { 1 }
    }

    /// When the next line starts, on the picture unit's clock.
    pub open spec fn next_line_cc(self, ds: bool) -> int {
        self.clk.abs_cc + dots_to_cycles(456 - self.clk.line_cycle, ds)
    }

    pub open spec fn ly_counter(self, m: Mmio) -> LyCounter {
        LyCounter {
            ly: self.clk.internal_ly_val as u32,
            time: self.next_line_cc(m.double_speed) as u64,
            ds: m.double_speed,
        }
    }

    /// When the next line starts, on the master clock.
    pub open spec fn ly_time_master(self, ds: bool) -> int {
        signed(self.clk.p_now) + self.next_line_cc(ds) + self.ly_plus1()
    }

    /// The line's dot at master clock reading `cc`.
    pub open spec fn line_cycles_at(self, cc: int, ds: bool) -> int {
        456 - cycles_to_dots(self.ly_time_master(ds) - cc, ds)
    }

    /// When the current line started, on the master clock.
    pub open spec fn line_start_master_cc(self, ds: bool) -> int {
        self.ly_time_master(ds) - dots_to_cycles(456, ds)
    }

    /// When mode 3 ends that starts after 80 dots of scan and takes `m3_len`
    /// dots plus the pipeline's depth.
    pub open spec fn m0_time_exact(
        self,
        m: Mmio,
        m3_len: int,
        is_cgb: bool,
        first_line: bool,
    ) -> int {
        let base = (if is_cgb { 84int } else { 83 }) + if first_line { 2int } else { 0 };
        at_least_zero_spec(
            self.ly_time_master(m.double_speed) - dots_to_cycles(
                456 - (m3_len + base),
                m.double_speed,
            ),
        )
    }

    /// When the palette lock of the line begins.
    pub open spec fn cgbp_begin_exact(self, m: Mmio) -> int {
        at_least_zero_spec(
            self.ly_time_master(m.double_speed) - dots_to_cycles(
                456 - if m.double_speed { 79int } else { 80 },
                m.double_speed,
            ),
        )
    }

    /// The clock reading at which a register write takes effect: half a dot
    /// later where the write falls between two dots.
    pub open spec fn write_cc(self, ds: bool) -> int {
        self.clk.abs_cc + if ds { self.speed.write_subdot as int } else { 0 }
    }

    /// The object height in force at `cc`, with a size write on its way.
    pub open spec fn objsize_large_at_cc(self, cc: u64) -> bool {
        if self.objs.objsize_apply_cc == DISABLED_TIME {
            self.objs.scan_obj_size_large
        } else if cc >= self.objs.objsize_apply_cc {
            self.objs.objsize_new_large
        } else {
            self.objs.objsize_prev_large
        }
    }

    /// The SCX in force at `cc`, with a write on its way.
    pub open spec fn scx_f1_pending_at_cc(self, cc: u64) -> u8 {
        if self.latch.scx_f1_apply_cc != DISABLED_TIME && cc >= self.latch.scx_f1_apply_cc {
            self.latch.scx_f1_new
        } else {
            self.latch.scx_prev_f1
        }
    }

    /// The line the LYC comparison works with: the next one in the last two
    /// dots of a line, except at the end of the frame.
    pub open spec fn effective_ly_for_lyc_compare(self, m: Mmio) -> u8 {
        if self.clk.line_cycle >= 454 && self.clk.internal_ly_val <= 152 && m.ly < 153 {
            (m.ly + 1) as u8
        } else {
            m.ly
        }
    }

    /// A switch back from double speed has moved the line counter's phase.
    pub open spec fn dsss_ly_phase_active(self) -> bool {
        self.speed.dsss_ly_total_count > 0
    }
}

impl Ppu {
    pub fn ly_plus1(&self) -> (r: i64)
        ensures
            r == self@.ly_plus1(),
    {
        if self.speed.lytime_no_plus1 { 0 } else { 1 }
    }

    pub fn ly_counter(&self, mmio: &Mmio) -> (r: LyCounter)
        requires
            self@.wf(),
            self@.in_range(),
        ensures
            r == self@.ly_counter(*mmio),
            r.time == self@.next_line_cc(mmio.double_speed),
    {
        let dots: u64 = (LCD_CYCLES_PER_LINE - self.clk.line_cycle) as u64;
        let ds = mmio.is_double_speed_mode();
        LyCounter {
            ly: self.clk.internal_ly_val as u32,
            time: self.clk.abs_cc + (if ds { dots * 2 } else { dots }),
            ds,
        }
    }

    pub fn ly_time_master(&self, ds: bool) -> (r: i64)
        requires
            self@.wf(),
            self@.in_range(),
        ensures
            r == self@.ly_time_master(ds),
            -3 * CLOCK_LIMIT < r < 3 * CLOCK_LIMIT,
    {
        let dots_to_next: i64 = (LCD_CYCLES_PER_LINE - self.clk.line_cycle) as i64;
        as_signed(self.clk.p_now) + self.clk.abs_cc as i64 + scaled(dots_to_next, ds)
            + self.ly_plus1()
    }

    pub fn line_cycles_at(&self, cc: i64, ds: bool) -> (r: i64)
        requires
            self@.wf(),
            self@.in_range(),
            -(CLOCK_LIMIT as int) < cc < CLOCK_LIMIT,
        ensures
            r == self@.line_cycles_at(cc as int, ds),
            -5 * CLOCK_LIMIT < r < 5 * CLOCK_LIMIT,
    {
        LCD_CYCLES_PER_LINE as i64 - to_dots_signed(self.ly_time_master(ds) - cc, ds)
    }

    pub fn line_start_master_cc(&self, double_speed: bool) -> (r: i64)
        requires
            self@.wf(),
            self@.in_range(),
        ensures
            r == self@.line_start_master_cc(double_speed),
    {
        self.ly_time_master(double_speed) - scaled(LCD_CYCLES_PER_LINE as i64, double_speed)
    }

    pub fn m0_time_exact(
        &self,
        mmio: &Mmio,
        m3_len: u128,
        is_cgb: bool,
        first_line: bool,
    ) -> (r: u64)
        requires
            self@.wf(),
            self@.in_range(),
            m3_len < 0x1_0000,
        ensures
            r == self@.m0_time_exact(*mmio, m3_len as int, is_cgb, first_line),
            r < 4 * CLOCK_LIMIT,
    {
        let base: i64 = (if is_cgb { 84 } else { 83 }) + (if first_line { 2 } else { 0 });
        let ds = mmio.is_double_speed_mode();
        at_least_zero(self.ly_time_master(ds) - scaled(456 - (m3_len as i64 + base), ds))
    }

    pub fn cgbp_begin_exact(&self, mmio: &Mmio) -> (r: u64)
        requires
            self@.wf(),
            self@.in_range(),
        ensures
            r == self@.cgbp_begin_exact(*mmio),
            r < 4 * CLOCK_LIMIT,
    {
        let ds = mmio.is_double_speed_mode();
        let lead: i64 = if ds { 456 - 79 } else { 456 - 80 };
        at_least_zero(self.ly_time_master(ds) - scaled(lead, ds))
    }

    pub fn write_cc(&self, ds: bool) -> (r: u64)
        requires
            self@.in_range(),
        ensures
            r == self@.write_cc(ds),
    {
        if ds { self.clk.abs_cc + self.speed.write_subdot as u64 } else { self.clk.abs_cc }
    }

    pub fn objsize_large_at_cc(&self, cc: u64) -> (r: bool)
        ensures
            r == self@.objsize_large_at_cc(cc),
    {
        if self.objs.objsize_apply_cc == DISABLED_TIME {
            self.objs.scan_obj_size_large
        } else if cc >= self.objs.objsize_apply_cc {
            self.objs.objsize_new_large
        } else {
            self.objs.objsize_prev_large
        }
    }

    pub fn scx_f1_pending_at_cc(&self, cc: u64) -> (r: u8)
        ensures
            r == self@.scx_f1_pending_at_cc(cc),
    {
        if self.latch.scx_f1_apply_cc != DISABLED_TIME && cc >= self.latch.scx_f1_apply_cc {
            self.latch.scx_f1_new
        } else {
            self.latch.scx_prev_f1
        }
    }

    pub fn effective_ly_for_lyc_compare(&self, mmio: &Mmio) -> (r: u8)
        ensures
            r == self@.effective_ly_for_lyc_compare(*mmio),
    {
        if self.clk.line_cycle >= 454 && self.clk.internal_ly_val <= 152 && mmio.ly < 153 {
            mmio.ly + 1
        } else {
            mmio.ly
        }
    }

    pub fn dsss_ly_phase_active(&self) -> (r: bool)
        ensures
            r == self@.dsss_ly_phase_active(),
    {
        self.speed.dsss_ly_total_count > 0
    }

    /// Parity of the switches that moved the phase of a mid-line read.
    pub fn dsss_ly_phase_par(&self) -> (r: u32)
        ensures
            r == self@.speed.dsss_ly_phase_count % 2,
    {
        self.speed.dsss_ly_phase_count % 2
    }

    /// Parity of all switches back to single speed.
    pub fn dsss_ly_total_par(&self) -> (r: u32)
        ensures
            r == self@.speed.dsss_ly_total_count % 2,
    {
        self.speed.dsss_ly_total_count % 2
    }

    pub fn bump_dsss_ly_phase(&mut self)
        requires
            old(self)@.speed.dsss_ly_phase_count < u32::MAX,
        ensures
            final(self)@ == (PpuView {
                speed: crate::state::SpeedPhase {
                    dsss_ly_phase_count: (old(self)@.speed.dsss_ly_phase_count + 1) as u32,
                    ..old(self)@.speed
                },
                ..old(self)@
            }),
            old(self).wf() ==> final(self).wf(),
    {
        self.speed.dsss_ly_phase_count += 1;
    }

    pub fn bump_dsss_ly_total(&mut self)
        requires
            old(self)@.speed.dsss_ly_total_count < u32::MAX,
        ensures
            final(self)@ == (PpuView {
                speed: crate::state::SpeedPhase {
                    dsss_ly_total_count: (old(self)@.speed.dsss_ly_total_count + 1) as u32,
                    ..old(self)@.speed
                },
                ..old(self)@
            }),
            old(self).wf() ==> final(self).wf(),
    {
        self.speed.dsss_ly_total_count += 1;
    }
}

} // verus!
