//! What the CPU sees of the picture unit: memory locks, STAT and LY.

use vstd::prelude::*;

use crate::arith::{floor_mod, to_dots_signed};
use crate::ly_counter::{get_lyc_compare_ly, inc_ly, LyCounter, LycCompare};
use crate::mmio::Mmio;
use crate::regs::{
    as_signed, at_least_zero, at_least_zero_spec, cycles_to_dots, dots_to_cycles, scaled, signed,
    LCDCFlags, CLOCK_LIMIT, LCD_CYCLES_PER_FRAME, LCD_CYCLES_PER_LINE, LCD_LINES_PER_FRAME,
};
use crate::state::{Ppu, PpuView, State};

verus! {

/// The machine, as far as a memory access depends on it.
#[derive(Clone, Copy, Debug, PartialEq, Eq, Structural)]
pub struct AccessEnv {
    pub is_cgb: bool,
    pub cgb_de: bool,
    pub double_speed: bool,
    pub halt_woken: bool,
}

/// 1 for true, 0 for false.
#[verifier::allow_in_spec]
pub fn one_if(b: bool) -> i64
    returns
        (if b { 1i64 } else { 0 }),
{
    if b { 1 } else { 0 }
}

impl PpuView {
    /// The dot that an OAM access at `cc` falls on. Writes go by the renderer's
    /// own count.
    pub open spec fn oam_line_cycle(self, is_read: bool, cc: int, ds: bool) -> int {
        if is_read {
            self.line_cycles_at(cc, ds)
        } else {
            self.clk.line_cycle - one_if(self.speed.lytime_no_plus1)
        }
    }

    /// Dots by which the scan's lock of OAM comes before the line.
    pub open spec fn oam_lock_lead(is_read: bool, env: AccessEnv, write_lead: int) -> int {
        if is_read {
            4 - if env.cgb_de { 0 } else { one_if(env.double_speed) as int }
        } else {
            write_lead
        }
    }

    /// In vertical blank only OAM is ever locked, just before line 0.
    pub open spec fn vblank_blocked(
        self,
        kind: u8,
        is_read: bool,
        env: AccessEnv,
        cc: int,
        close_bias: int,
    ) -> bool {
        kind == 1 && self.clk.internal_ly_val == 153 && self.oam_line_cycle(
            is_read,
            cc,
            env.double_speed,
        ) + PpuView::oam_lock_lead(is_read, env, 3 + one_if(env.is_cgb)) + close_bias >= 456
    }

    /// The scan that follows switching the LCD on locks nothing.
    pub open spec fn enable_grace(self, kind: u8, is_read: bool, env: AccessEnv, cc: int) -> bool {
        let bias = if kind == 0 {
            2 - one_if(env.is_cgb) + one_if(env.double_speed)
        } else if kind == 1 && is_read {
            5
        } else if kind == 1 {
            5 + one_if(env.double_speed)
        } else {
            1
        };
        self.clk.display_enable_inactive_until != 0 && cc + bias
            < self.clk.display_enable_inactive_until
    }

    /// The palette lock: from shortly before mode 3 until two cycles past its
    /// end.
    pub open spec fn palette_blocked(self, env: AccessEnv, mode3_locked: bool, cc: int) -> bool {
        match self.m0.cgbp_block_start_cc {
            Some(start) => {
                let ended = match self.m0.m0_time_master {
                    Some(m0t) => self.state != State::OAMSearch && cc + 1 >= m0t + 2,
                    None => false,
                };
                cc + self.ly_plus1() >= start && !ended
            },
            None => {
                let begun = self.ticks + one_if(env.double_speed) - (4 - one_if(env.is_cgb)) >= 80;
                match self.m0.m0_time_master {
                    Some(m0t) => begun && !(cc + 1 >= m0t + 2),
                    None => begun && mode3_locked,
                }
            },
        }
    }

    /// Whether the video memory lock of the line has begun, where that is
    /// known.
    pub open spec fn vram_lock_begun(self, is_read: bool, env: AccessEnv, cc: int) -> Option<bool> {
        match self.m0.cgbp_block_start_cc {
            Some(start) => {
                let offset = if is_read { 4 - 3 * one_if(env.is_cgb) } else { 1 };
                Some(cc + self.ly_plus1() >= start - dots_to_cycles(offset as int, env.double_speed))
            },
            None => None,
        }
    }

    /// The scan runs past its usual end.
    pub open spec fn scan_extended(self, env: AccessEnv) -> bool {
        !env.double_speed && self.ticks > 80 && !self.clk.first_line_after_enable
    }

    /// Locks of video memory and OAM on a visible line.
    pub open spec fn memory_blocked(
        self,
        kind: u8,
        is_read: bool,
        mode3_locked: bool,
        env: AccessEnv,
        cc: int,
        open_bias: int,
        close_bias: int,
    ) -> Option<bool> {
        let begun = self.vram_lock_begun(is_read, env, cc);
        if kind == 0 && self.state == State::OAMSearch && begun is Some {
            Some(
                begun->0 && (self.speed.render_carry_skew_cc != 0 || !self.scan_extended(env)),
            )
        } else {
            match self.m0.m0_time_master {
                None => None,
                Some(m0t) => {
                    let dot = self.oam_line_cycle(is_read, cc, env.double_speed);
                    let lead = PpuView::oam_lock_lead(is_read, env, 3 + 2 * one_if(env.is_cgb));
                    let hold = one_if(kind == 1 && is_read && env.cgb_de);
                    let ended = self.state != State::OAMSearch && cc + 3 - hold + open_bias >= m0t;
                    let started = if kind == 0 && begun is Some {
                        begun->0 || mode3_locked
                    } else if kind == 1 && self.clk.first_line_after_enable {
                        true
                    } else {
                        match self.m0.cgbp_block_start_cc {
                            Some(start) => cc >= start || mode3_locked,
                            None => mode3_locked,
                        }
                    };
                    if kind == 1 && dot + lead + close_bias >= 456 {
                        // The next line's scan: not after the last visible line.
                        Some(!(143 <= self.clk.internal_ly_val < 153))
                    } else if kind == 1 && !is_read && !env.is_cgb && dot == 76 {
                        Some(false)
                    } else {
                        Some(started && !ended)
                    }
                },
            }
        }
    }

    /// Whether an access of the given kind (0 video memory, 1 OAM, 2 palette
    /// memory) is blocked at `cc`; `None` where the line's timing is not
    /// scheduled.
    pub open spec fn cpu_access_blocked(
        self,
        kind: u8,
        is_read: bool,
        mode3_locked: bool,
        env: AccessEnv,
        cc: int,
    ) -> Option<bool> {
        let woken = kind == 1 && is_read && env.halt_woken;
        let open_bias = if woken { 4int } else { 0 };
        let close_bias = if woken { 5int } else { 0 };
        if self.disabled {
            Some(false)
        } else if self.clk.internal_ly_val >= 144 {
            Some(self.vblank_blocked(kind, is_read, env, cc, close_bias))
        } else if self.enable_grace(kind, is_read, env, cc) {
            Some(false)
        } else if kind == 2 {
            Some(self.palette_blocked(env, mode3_locked, cc))
        } else {
            self.memory_blocked(kind, is_read, mode3_locked, env, cc, open_bias, close_bias)
        }
    }

    /// Whether video memory can be read at `cc`.
    pub open spec fn vram_readable_at_cc(self, cc: int, is_cgb: bool, ds: bool) -> Option<bool> {
        if self.disabled || self.clk.internal_ly_val >= 144 {
            Some(true)
        } else {
            match self.m0.m0_time_master {
                None => None,
                Some(m0t) => Some(
                    self.line_cycles_at(cc, ds) + one_if(ds) < 76 + 3 * one_if(is_cgb) || cc + 2
                        >= m0t,
                ),
            }
        }
    }

    /// Cycles by which a STAT read looks ahead at the end of mode 3.
    pub open spec fn stat_read_off(self, ds: bool, late_rev: bool, halt_woken: bool) -> int {
        (if !ds && !self.speed.lytime_no_plus1 { 3int } else { 2 }) + (if ds && late_rev {
            4int
        } else {
            0
        }) - (if self.speed.lytime_no_plus1 {
            self.speed.render_carry_skew_cc as int
        } else {
            0
        }) + (if halt_woken {
            if ds { -2int } else { 1 }
        } else {
            0
        })
    }

    /// The mode bits while pixels are being put out: 3, then 0.
    pub open spec fn stat_mode3to0(
        self,
        cc: int,
        ds: bool,
        late_rev: bool,
        halt_woken: bool,
    ) -> Option<u8> {
        if self.disabled || self.clk.internal_ly_val >= 144 || self.state != State::PixelTransfer {
            None
        } else {
            match self.m0.m0_time_master {
                None => None,
                Some(m0t) => Some(
                    if cc + self.stat_read_off(ds, late_rev, halt_woken) < m0t { 3u8 } else { 0 },
                ),
            }
        }
    }

    /// Mode `mode`, or 0 while the LCD has just been switched on.
    pub open spec fn mode_unless_inactive(self, cc: int, mode: u8) -> u8 {
        if cc + 1 < self.clk.display_enable_inactive_until { 0 } else { mode }
    }

    /// Mode 3 before the given time, mode 0 from there on.
    pub open spec fn mode3_before(self, m: Mmio, cc: int, m0t: int, ds: bool) -> u8 {
        if cc + self.stat_read_off(ds, late_rev(&m), false) < m0t { 3 } else { 0 }
    }

    /// When the next line starts, on the master clock, without the read's own
    /// cycle.
    pub open spec fn next_line_master(self, ds: bool) -> int {
        signed(self.clk.p_now) + self.next_line_cc(ds)
    }

    /// The mode bits on a visible line.
    pub open spec fn stat_mode_midframe(
        self,
        m: Mmio,
        cc: int,
        line_cycles: int,
        ds: bool,
        halt_skew: bool,
        is_cgb: bool,
    ) -> Option<u8> {
        let woken = halt_skew && m.halt.m0m2;
        let early = if ds || !is_cgb { 451int } else { 449 };
        if woken && line_cycles >= early {
            Some(self.mode_unless_inactive(cc, 2))
        } else if woken && line_cycles >= 449 {
            if cc + 1 < self.clk.display_enable_inactive_until {
                Some(0)
            } else {
                match self.m0.m0_time_master {
                    Some(m0t) if self.state != State::OAMSearch => Some(
                        self.mode3_before(m, cc, m0t as int, ds),
                    ),
                    _ => None,
                }
            }
        } else if line_cycles < 77 || line_cycles >= 453 {
            Some(self.mode_unless_inactive(cc, 2))
        } else if self.state != State::OAMSearch {
            match self.m0.m0_time_master {
                Some(m0t) => Some(
                    if cc + 1 < self.clk.display_enable_inactive_until {
                        0u8
                    } else {
                        self.mode3_before(m, cc, m0t as int, ds)
                    },
                ),
                None => None,
            }
        } else {
            self.stat_mode_in_scan(m, cc, ds, is_cgb)
        }
    }

    /// The mode bits when mode 3 shows before the scan has ended.
    pub open spec fn stat_mode_in_scan(self, m: Mmio, cc: int, ds: bool, is_cgb: bool) -> Option<
        u8,
    > {
        let line_start = self.next_line_master(m.double_speed) - dots_to_cycles(456, ds);
        if self.clk.first_line_after_enable {
            match self.m0.m0_time_master {
                None => None,
                Some(m0t) => Some(
                    if cc + 1 < line_start + dots_to_cycles(80, ds) {
                        0u8
                    } else {
                        self.mode3_before(m, cc, m0t as int, ds)
                    },
                ),
            }
        } else {
            let depth = if is_cgb { 84int } else { 83 };
            let m0t = line_start + dots_to_cycles(self.m3_length(m, is_cgb) + depth, ds) + 1;
            Some(self.mode3_before(m, cc, m0t, ds))
        }
    }

    /// The read's clock reading with the corrections for double speed and for
    /// a HALT that has just ended.
    pub open spec fn stat_read_cc(self, m: Mmio, access_cc: int) -> int {
        let ds = m.double_speed;
        let free = uncharged_halt_exit(&m) != 0 && late_rev(&m);
        let cc = at_least_zero_spec(access_cc - if ds && !free { 1int } else { 0 });
        if self.state == State::OAMSearch && m.halt.skew && m.cgb_features && !ds && !m.halt.hdma {
            if m.halt.m2_stall_charged_cgb { cc + 1 } else { cc + 5 }
        } else {
            cc
        }
    }

    /// The mode bits anywhere in the frame; `None` where the line's own state
    /// decides.
    pub open spec fn stat_mode_at_cc(self, m: Mmio, access_cc: int) -> Option<u8> {
        let ds = m.double_speed;
        let cc = self.stat_read_cc(m, access_cc);
        let ly = self.clk.internal_ly_val as int;
        let line_cycles = 456 - cycles_to_dots(self.next_line_master(ds) - cc, ds);
        let frame_cycles = ly * 456 + line_cycles;
        let near_line_end = line_cycles >= 449;
        let in_vblank = 144 * 456 - 3 <= frame_cycles < 70224 - 3;
        if self.disabled || !self.lcdc_has(LCDCFlags::DisplayEnable) {
            None
        } else if ly < 143 || (ly == 143 && !near_line_end) {
            self.stat_mode_midframe(m, cc, line_cycles, ds, m.halt.skew, m.cgb_features)
        } else if in_vblank {
            let entry = 144 * 456 - 2 - one_if(late_rev(&m));
            let exit = 70224 - 4 + one_if(ds) + one_if(m.is_agb() && ly == 153);
            Some(
                if entry <= frame_cycles < exit || (m.cgb_de && !ds && frame_cycles >= 70224 - 4) {
                    1u8
                } else {
                    0
                },
            )
        } else if !near_line_end {
            None
        } else if line_cycles >= 453 {
            Some(self.mode_unless_inactive(cc, 2))
        } else {
            match self.m0.m0_time_master {
                Some(m0t) => Some(
                    if cc + 2 < m0t { self.mode_unless_inactive(cc, 3) } else { 0u8 },
                ),
                None => Some(0),
            }
        }
    }

    /// The mode bits of a STAT read.
    pub open spec fn stat_mode(self, m: Mmio, access_cc: int) -> Option<u8> {
        let cc = access_cc + uncharged_halt_exit(&m);
        if self.disabled || !self.lcdc_has(LCDCFlags::DisplayEnable) {
            None
        } else {
            match self.stat_mode3to0(cc, m.double_speed, late_rev(&m), halt_woken_m3_read(&m)) {
                Some(v) => Some(v),
                None => self.stat_mode_at_cc(m, cc),
            }
        }
    }

    /// The LYC flag of a STAT read.
    pub open spec fn lyc_flag_at_cc(self, m: Mmio, access_cc: int) -> Option<bool> {
        let cc = access_cc + uncharged_halt_exit(&m);
        let ds = m.double_speed;
        let ly = self.clk.internal_ly_val as u32;
        let late = m.is_agb() || m.cgb_de;
        let plus1 = one_if(
            !ds && !self.speed.lytime_no_plus1 && m.is_cgb() && self.out.frames_since_enable == 0
                && self.clk.internal_ly_val != 0,
        );
        let anticipate = 2 * one_if(ds && late);
        let wrap = dots_to_cycles(one_if(ly == LCD_LINES_PER_FRAME - 1) as int, ds);
        let lc = LyCounter {
            ly,
            time: at_least_zero_spec(self.next_line_master(ds) + plus1 - anticipate - wrap) as u64,
            ds,
        };
        let seen = lc.lyc_compare(cc as u64);
        let hold = one_if(!ds && late);
        let clear_early = one_if(ds && late && uncharged_halt_exit(&m) != 0);
        if self.disabled || !self.lcdc_has(LCDCFlags::DisplayEnable) {
            None
        } else {
            Some(
                m.lyc == seen.ly && seen.time_to_next_ly > 2 - hold - anticipate - wrap
                    + clear_early,
            )
        }
    }

    /// A switch to double speed in mode 3 has moved the line counter, and no
    /// HALT has moved it again.
    pub open spec fn ssds_plain(self, m: Mmio) -> bool {
        m.double_speed && self.speed.ssds_mode3_ly_advance && !m.halt.skew
    }

    /// The line and the time to the next one as an LY read finds them.
    #[verifier::opaque]
    pub open spec fn ly_read_position(self, m: Mmio, cc: int) -> (int, int) {
        let ds = m.double_speed;
        let ly = self.clk.internal_ly_val as int;
        let time = self.next_line_master(ds) + 1 + (if self.ssds_plain(m) { 3int } else { 0 }) - (
        if self.speed.ssds_mode3_ly_advance && ds { 10int } else { 0 });
        let wait = uncharged_halt_exit(&m) as int;
        if cc >= time {
            (inc_ly(ly as u32) as int, time + dots_to_cycles(456, ds) - cc - wait)
        } else {
            (ly, time - cc - wait)
        }
    }

    /// The dots by which speed switches have moved the end of the line.
    #[verifier::opaque]
    pub open spec fn line_end_shift(self) -> int {
        -(((self.speed.render_carry_skew_cc + 2) % 15) / 5)
    }

    /// LY on the last line, which turns into 0 early.
    #[verifier::opaque]
    pub open spec fn ly_reg_last_line(self, m: Mmio, to_next: int) -> Option<u8> {
        if !m.double_speed {
            let hold = one_if(self.dsss_ly_phase_active() && self.line_end_shift() != 0);
            if to_next - 1 <= 456 - one_if(m.is_agb()) - one_if(m.cgb_de) - hold {
                Some(0)
            } else if m.cgb_de {
                Some(153)
            } else {
                None
            }
        } else if self.ssds_plain(m) {
            Some(if to_next >= 2 * 456 - 10 { 153u8 } else { 0 })
        } else {
            Some(if to_next <= 2 * 456 - 2 { 0u8 } else { 153 })
        }
    }

    /// Time to the next line less what a HALT that has just ended costs.
    #[verifier::opaque]
    pub open spec fn ly_read_to_next(self, m: Mmio, to_next: int) -> int {
        let ds = m.double_speed;
        let m0_wake = m.halt.skew && m.is_cgb() && !m.cgb_features && !ds && !m.halt.hdma;
        let cgb_exit = m.halt.skew && m.cgb_features && !ds && !m.halt.hdma
            && !m.halt.m2_stall_charged_cgb;
        let ssds_exit = m.halt.skew && ds && m.halt.ssds_ly_advance && !m.halt.hdma
            && !self.speed.ssds_mode3_ly_advance;
        if m0_wake && m.halt.cgb_m0_ly_advance is Some {
            to_next - m.halt.cgb_m0_ly_advance->0
        } else if cgb_exit || ssds_exit {
            to_next - 5
        } else if m.halt.skew {
            to_next - 1
        } else {
            to_next
        }
    }

    /// What an LY read returns around the change of line: the next line just
    /// before it, and in between the two numbers ANDed. `None` where LY itself
    /// is read.
    pub open spec fn ly_reg_at_cc(self, m: Mmio, cc: int) -> Option<u8> {
        let (ly, to_next) = self.ly_read_position(m, cc);
        let next = (ly + 1) as u8;
        let both = (ly as u8) & next;
        let tn = self.ly_read_to_next(m, to_next);
        let glitch = 6 + 4 * one_if(m.double_speed);
        let post_stop = self.dsss_ly_phase_active();
        let tn_eff = tn - if post_stop { self.line_end_shift() } else { 0 };
        let odd_stop = self.speed.dsss_ly_phase_count % 2 == 1 || self.speed.dsss_ly_total_count % 2
            == 1;
        if self.disabled || !self.lcdc_has(LCDCFlags::DisplayEnable) {
            None
        } else if ly == 153 {
            self.ly_reg_last_line(m, to_next)
        } else if self.ssds_plain(m) {
            if tn > 4 {
                None
            } else {
                Some(if tn == 4 { both } else { next })
            }
        } else if tn_eff > glitch {
            None
        } else if tn_eff == glitch {
            Some(if post_stop && m.cgb_de && !odd_stop { ly as u8 } else { both })
        } else {
            Some(next)
        }
    }
}

/// Late CGB revisions and the AGB read some flags earlier.
#[verifier::allow_in_spec]
pub fn late_rev(mmio: &Mmio) -> bool
    returns
        mmio.cgb_de || mmio.agb_curve is Some,
{
    mmio.is_cgb_de() || mmio.is_agb()
}

/// A HALT ended by vertical blank leaves reads a cycle late.
#[verifier::allow_in_spec]
pub fn uncharged_halt_exit(mmio: &Mmio) -> i64
    returns
        (if (mmio.halt.grid_cgb || mmio.halt.skew) && mmio.cgb_features && mmio.halt.vblank {
            1i64
        } else {
            0
        }),
{
    if (mmio.halt.grid_cgb || mmio.halt.skew) && mmio.is_cgb_features_enabled()
        && mmio.halt.vblank {
        1
    } else {
        0
    }
}

/// A HALT that ended otherwise moves mode-3 reads on late revisions.
#[verifier::allow_in_spec]
pub fn halt_woken_m3_read(mmio: &Mmio) -> bool
    returns
        (mmio.halt.grid_cgb || mmio.halt.skew) && mmio.cgb_features && late_rev(mmio)
            && !mmio.halt.vblank,
{
    (mmio.halt.grid_cgb || mmio.halt.skew) && mmio.is_cgb_features_enabled() && late_rev(mmio)
        && !mmio.halt.vblank
}

impl Ppu {
    fn oam_line_cycle(&self, is_read: bool, cc: i64, ds: bool) -> (r: i64)
        requires
            self@.wf(),
            self@.in_range(),
            0 <= cc < CLOCK_LIMIT,
        ensures
            r == self@.oam_line_cycle(is_read, cc as int, ds),
            -5 * CLOCK_LIMIT < r < 5 * CLOCK_LIMIT,
    {
        if is_read {
            self.line_cycles_at(cc, ds)
        } else {
            self.clk.line_cycle as i64 - one_if(self.speed.lytime_no_plus1)
        }
    }

    fn palette_blocked(&self, env: AccessEnv, mode3_locked: bool, cc: i64) -> (r: bool)
        requires
            self@.in_range(),
            0 <= cc < CLOCK_LIMIT,
        ensures
            r == self@.palette_blocked(env, mode3_locked, cc as int),
    {
        let cc_end: i64 = cc + 1;
        if let Some(start) = self.m0.cgbp_block_start_cc {
            let begun = cc + self.ly_plus1() >= start as i64;
            let ended = match self.m0.m0_time_master {
                Some(m0t) => self.state != State::OAMSearch && cc_end >= m0t as i64 + 2,
                None => false,
            };
            return begun && !ended;
        }
        let begun = self.ticks as i64 + one_if(env.double_speed) - (4 - one_if(env.is_cgb)) >= 80;
        match self.m0.m0_time_master {
            Some(m0t) => begun && !(cc_end >= m0t as i64 + 2),
            None => begun && mode3_locked,
        }
    }

    fn memory_blocked(
        &self,
        kind: u8,
        is_read: bool,
        mode3_locked: bool,
        env: AccessEnv,
        cc: i64,
        open_bias: i64,
        close_bias: i64,
    ) -> (r: Option<bool>)
        requires
            self@.wf(),
            self@.in_range(),
            0 <= cc < CLOCK_LIMIT,
            0 <= open_bias <= 5,
            0 <= close_bias <= 5,
        ensures
            r == self@.memory_blocked(
                kind,
                is_read,
                mode3_locked,
                env,
                cc as int,
                open_bias as int,
                close_bias as int,
            ),
    {
        let vram_started: Option<bool> = match self.m0.cgbp_block_start_cc {
            Some(start) => {
                let offset: i64 = if is_read { 4 - 3 * one_if(env.is_cgb) } else { 1 };
                let vram_begin: i64 = start as i64 - scaled(offset, env.double_speed);
                Some(cc + self.ly_plus1() >= vram_begin)
            },
            None => None,
        };
        if kind == 0 && self.state == State::OAMSearch {
            if let Some(started) = vram_started {
                if self.speed.render_carry_skew_cc != 0 {
                    return Some(started);
                }
                let extended = !env.double_speed && self.ticks > 80
                    && !self.clk.first_line_after_enable;
                return Some(if extended { false } else { started });
            }
        }
        let m0t: i64 = match self.m0.m0_time_master {
            Some(t) => t as i64,
            None => {
                return None;
            },
        };
        let dot: i64 = self.oam_line_cycle(is_read, cc, env.double_speed);
        if kind == 1 {
            let k: i64 = if is_read {
                4 - (if env.cgb_de { 0 } else { one_if(env.double_speed) })
            } else {
                3 + 2 * one_if(env.is_cgb)
            };
            if dot + k + close_bias >= LCD_CYCLES_PER_LINE as i64 {
                let ly: u8 = self.clk.internal_ly_val;
                return Some(!(143 <= ly && ly < 153));
            }
        }
        let de_read_hold: i64 = one_if(kind == 1 && is_read && env.cgb_de);
        let ended = self.state != State::OAMSearch && cc + 1 + 2 - de_read_hold + open_bias >= m0t;
        if kind == 1 && !is_read && !env.is_cgb && dot == 76 {
            return Some(false);
        }
        let started = match (kind, vram_started) {
            (0, Some(s)) => s || mode3_locked,
            (1, _) if self.clk.first_line_after_enable => true,
            _ => match self.m0.cgbp_block_start_cc {
                Some(start) => cc >= start as i64 || mode3_locked,
                None => mode3_locked,
            },
        };
        Some(started && !ended)
    }

    pub fn cpu_access_blocked(
        &self,
        kind: u8,
        is_read: bool,
        mode3_locked: bool,
        env: AccessEnv,
        access_cc: u64,
    ) -> (r: Option<bool>)
        requires
            self@.wf(),
            self@.in_range(),
            access_cc < CLOCK_LIMIT,
        ensures
            r == self@.cpu_access_blocked(kind, is_read, mode3_locked, env, access_cc as int),
    {
        let (open_bias, close_bias): (i64, i64) = if kind == 1 && is_read && env.halt_woken {
            (4, 5)
        } else {
            (0, 0)
        };
        if self.disabled {
            return Some(false);
        }
        let cc: i64 = access_cc as i64;
        if self.clk.internal_ly_val >= 144 {
            if kind == 1 && self.clk.internal_ly_val == 153 {
                let wrap_lc: i64 = self.oam_line_cycle(is_read, cc, env.double_speed);
                let k: i64 = if is_read {
                    4 - (if env.cgb_de { 0 } else { one_if(env.double_speed) })
                } else {
                    3 + one_if(env.is_cgb)
                };
                return Some(wrap_lc + k + close_bias >= LCD_CYCLES_PER_LINE as i64);
            }
            return Some(false);
        }
        if self.clk.display_enable_inactive_until != 0 {
            let bias: i64 = match (kind, is_read) {
                (2, _) => 1,
                (0, _) => 2 - one_if(env.is_cgb) + one_if(env.double_speed),
                (1, true) => 5,
                (1, false) => 5 + one_if(env.double_speed),
                _ => 1,
            };
            if cc + bias < self.clk.display_enable_inactive_until as i64 {
                return Some(false);
            }
        }
        if kind == 2 {
            return Some(self.palette_blocked(env, mode3_locked, cc));
        }
        self.memory_blocked(kind, is_read, mode3_locked, env, cc, open_bias, close_bias)
    }

    pub fn vram_readable_at_cc(&self, cc: u64, is_cgb: bool, ds: bool) -> (r: Option<bool>)
        requires
            self@.wf(),
            self@.in_range(),
            cc < CLOCK_LIMIT,
        ensures
            r == self@.vram_readable_at_cc(cc as int, is_cgb, ds),
    {
        if self.disabled || self.clk.internal_ly_val >= 144 {
            return Some(true);
        }
        let m0t: i64 = match self.m0.m0_time_master {
            Some(t) => t as i64,
            None => {
                return None;
            },
        };
        let cc: i64 = cc as i64;
        let line_cycles: i64 = self.line_cycles_at(cc, ds);
        let mode2_readable = line_cycles + one_if(ds) < 76 + 3 * one_if(is_cgb);
        let mode0_reached = cc + 2 >= m0t;
        Some(mode2_readable || mode0_reached)
    }

    fn stat_read_off(&self, ds: bool, late: bool, halt_woken: bool) -> (r: i64)
        requires
            self@.in_range(),
        ensures
            r == self@.stat_read_off(ds, late, halt_woken),
            -0x2000_0000 < r < 0x2000_0000,
    {
        let base: i64 = if !ds && !self.speed.lytime_no_plus1 { 3 } else { 2 };
        let base: i64 = base + (if ds && late { 4 } else { 0 });
        let base: i64 = if self.speed.lytime_no_plus1 {
            base - self.speed.render_carry_skew_cc
        } else {
            base
        };
        base + (if halt_woken {
            if ds { -2 } else { 1 }
        } else {
            0
        })
    }

    pub fn get_stat_mode3to0_at_cc(
        &self,
        access_cc: u64,
        ds: bool,
        late: bool,
        halt_woken: bool,
    ) -> (r: Option<u8>)
        requires
            self@.in_range(),
            access_cc < 2 * CLOCK_LIMIT,
        ensures
            r == self@.stat_mode3to0(access_cc as int, ds, late, halt_woken),
    {
        if self.disabled || self.clk.internal_ly_val >= 144 {
            return None;
        }
        if self.state != State::PixelTransfer {
            return None;
        }
        let m0t: i64 = match self.m0.m0_time_master {
            Some(t) => t as i64,
            None => {
                return None;
            },
        };
        let read_off: i64 = self.stat_read_off(ds, late, halt_woken);
        if (access_cc as i64) + read_off < m0t {
            Some(3)
        } else {
            Some(0)
        }
    }

    fn mode_unless_inactive(&self, cc: u64, mode: u8) -> (r: u8)
        requires
            cc < 4 * CLOCK_LIMIT,
        ensures
            r == self@.mode_unless_inactive(cc as int, mode),
    {
        if cc + 1 < self.clk.display_enable_inactive_until { 0 } else { mode }
    }

    fn mode3_before(&self, mmio: &Mmio, cc: u64, m0t: i64, ds: bool) -> (r: u8)
        requires
            self@.in_range(),
            cc < 4 * CLOCK_LIMIT,
        ensures
            r == self@.mode3_before(*mmio, cc as int, m0t as int, ds),
    {
        let read_off: i64 = self.stat_read_off(ds, late_rev(mmio), false);
        if (cc as i64) + read_off < m0t { 3 } else { 0 }
    }

    fn next_line_master(&self, ds: bool) -> (r: i64)
        requires
            self@.wf(),
            self@.in_range(),
        ensures
            r == self@.next_line_master(ds),
            -3 * CLOCK_LIMIT < r < 3 * CLOCK_LIMIT,
    {
        let dots: i64 = (LCD_CYCLES_PER_LINE - self.clk.line_cycle) as i64;
        as_signed(self.clk.p_now) + self.clk.abs_cc as i64 + scaled(dots, ds)
    }

    fn stat_mode_in_scan(&self, mmio: &Mmio, cc: u64, ds: bool, is_cgb: bool) -> (r: Option<u8>)
        requires
            self@.wf(),
            self@.in_range(),
            cc < 4 * CLOCK_LIMIT,
        ensures
            r == self@.stat_mode_in_scan(*mmio, cc as int, ds, is_cgb),
    {
        let line_start: i64 = self.next_line_master(mmio.is_double_speed_mode()) - scaled(456, ds);
        if self.clk.first_line_after_enable {
            match self.m0.m0_time_master {
                None => None,
                Some(m0t) => {
                    let lu_local: i64 = line_start + scaled(80, ds);
                    if (cc as i64) + 1 < lu_local {
                        return Some(0);
                    }
                    Some(self.mode3_before(mmio, cc, m0t as i64, ds))
                },
            }
        } else {
            let base: i64 = if is_cgb { 84 } else { 83 };
            let m3_len: i64 = self.compute_m3_length(mmio, is_cgb) as i64;
            let m0t: i64 = line_start + scaled(m3_len + base, ds) + 1;
            Some(self.mode3_before(mmio, cc, m0t, ds))
        }
    }

    fn get_stat_mode_midframe(
        &self,
        mmio: &Mmio,
        access_cc: u64,
        line_cycles: i64,
        ds: bool,
        halt_skew: bool,
        is_cgb: bool,
    ) -> (r: Option<u8>)
        requires
            self@.wf(),
            self@.in_range(),
            access_cc < 4 * CLOCK_LIMIT,
        ensures
            r == self@.stat_mode_midframe(
                *mmio,
                access_cc as int,
                line_cycles as int,
                ds,
                halt_skew,
                is_cgb,
            ),
    {
        let cpl: i64 = LCD_CYCLES_PER_LINE as i64;
        let ptz_wake = mmio.halt.m0m2;
        let tail_thresh: i64 = if ds { cpl - 5 } else { cpl - 7 };
        if halt_skew && ptz_wake && is_cgb && line_cycles >= tail_thresh {
            return Some(self.mode_unless_inactive(access_cc, 2));
        }
        if halt_skew && ptz_wake && line_cycles >= cpl - 5 {
            return Some(self.mode_unless_inactive(access_cc, 2));
        }
        if halt_skew && ptz_wake && line_cycles >= cpl - 7 {
            if access_cc + 1 < self.clk.display_enable_inactive_until {
                return Some(0);
            }
            if self.state != State::OAMSearch {
                if let Some(m0t) = self.m0.m0_time_master {
                    return Some(self.mode3_before(mmio, access_cc, m0t as i64, ds));
                }
            }
            return None;
        }
        if line_cycles < 77 || line_cycles >= cpl - 3 {
            return Some(self.mode_unless_inactive(access_cc, 2));
        }
        if self.state != State::OAMSearch {
            match self.m0.m0_time_master {
                Some(m0t) => {
                    if access_cc + 1 < self.clk.display_enable_inactive_until {
                        return Some(0);
                    }
                    Some(self.mode3_before(mmio, access_cc, m0t as i64, ds))
                },
                None => None,
            }
        } else {
            self.stat_mode_in_scan(mmio, access_cc, ds, is_cgb)
        }
    }

    pub fn get_stat_mode_at_cc(&self, mmio: &Mmio, access_cc: u64) -> (r: Option<u8>)
        requires
            self@.wf(),
            self@.in_range(),
            access_cc < 2 * CLOCK_LIMIT,
        ensures
            r == self@.stat_mode_at_cc(*mmio, access_cc as int),
    {
        if self.disabled || !self.lcdc_has(LCDCFlags::DisplayEnable) {
            return None;
        }
        let ds = mmio.is_double_speed_mode();
        let vblank_woken_free = uncharged_halt_exit(mmio) != 0 && late_rev(mmio);
        let off: i64 = if ds && !vblank_woken_free { -1 } else { 0 };
        let cc: u64 = at_least_zero(access_cc as i64 + off);
        let cc: u64 = if self.state == State::OAMSearch && mmio.halt.skew
            && mmio.is_cgb_features_enabled() && !ds && !mmio.halt.hdma {
            if mmio.halt.m2_stall_charged_cgb { cc + 1 } else { cc + 5 }
        } else {
            cc
        };
        let ly: i64 = self.clk.internal_ly_val as i64;
        let cpl: i64 = LCD_CYCLES_PER_LINE as i64;
        let cpf: i64 = LCD_CYCLES_PER_FRAME as i64;
        let time_to_next_ly: i64 = self.next_line_master(ds) - cc as i64;
        let line_cycles: i64 = cpl - to_dots_signed(time_to_next_ly, ds);
        let frame_cycles: i64 = ly * cpl + line_cycles;
        let near_line_end = line_cycles >= cpl - 7;
        if ly < 143 || (ly == 143 && !near_line_end) {
            return self.get_stat_mode_midframe(
                mmio,
                cc,
                line_cycles,
                ds,
                mmio.halt.skew,
                mmio.is_cgb_features_enabled(),
            );
        }
        let in_vblank_window = frame_cycles >= 144 * cpl - 3 && frame_cycles < cpf - 3;
        if !near_line_end && !in_vblank_window {
            return None;
        }
        if in_vblank_window {
            let agb_last_line: i64 = one_if(
                mmio.is_agb() && ly == (LCD_LINES_PER_FRAME - 1) as i64,
            );
            let m1_entry: i64 = 144 * cpl - 2 - one_if(late_rev(mmio));
            if frame_cycles >= m1_entry && frame_cycles < cpf - 4 + one_if(ds) + agb_last_line {
                return Some(1);
            }
            if mmio.is_cgb_de() && !ds && frame_cycles >= cpf - 4 {
                return Some(1);
            }
            return Some(0);
        }
        if line_cycles >= cpl - 3 {
            return Some(self.mode_unless_inactive(cc, 2));
        }
        if let Some(m0t) = self.m0.m0_time_master {
            if cc + 1 < self.clk.display_enable_inactive_until {
                return Some(0);
            }
            if (cc as i64) + 2 < m0t as i64 {
                return Some(3);
            }
        }
        Some(0)
    }

    /// The mode bits that a STAT read at `access_cc` returns, where the clock
    /// decides.
    pub fn get_stat(&self, mmio: &Mmio, access_cc: u64) -> (r: Option<u8>)
        requires
            self@.wf(),
            self@.in_range(),
            access_cc < CLOCK_LIMIT,
        ensures
            r == self@.stat_mode(*mmio, access_cc as int),
    {
        if self.disabled || !self.lcdc_has(LCDCFlags::DisplayEnable) {
            return None;
        }
        let ds = mmio.is_double_speed_mode();
        let cc: u64 = access_cc + uncharged_halt_exit(mmio) as u64;
        match self.get_stat_mode3to0_at_cc(cc, ds, late_rev(mmio), halt_woken_m3_read(mmio)) {
            Some(v) => Some(v),
            None => self.get_stat_mode_at_cc(mmio, cc),
        }
    }

    /// The LYC flag that a STAT read at `access_cc` returns.
    pub fn get_lyc_flag_at_cc(&self, mmio: &Mmio, access_cc: u64) -> (r: Option<bool>)
        requires
            self@.wf(),
            self@.in_range(),
            access_cc < CLOCK_LIMIT,
        ensures
            r == self@.lyc_flag_at_cc(*mmio, access_cc as int),
    {
        if self.disabled || !self.lcdc_has(LCDCFlags::DisplayEnable) {
            return None;
        }
        let cc: u64 = access_cc + uncharged_halt_exit(mmio) as u64;
        let ds = mmio.is_double_speed_mode();
        let ly: u32 = self.clk.internal_ly_val as u32;
        let late = mmio.is_agb() || mmio.is_cgb_de();
        let ss_plus1: i64 = one_if(
            !ds && !self.speed.lytime_no_plus1 && mmio.is_cgb() && self.out.frames_since_enable == 0
                && self.clk.internal_ly_val != 0,
        );
        let ds_anticipate: i64 = 2 * one_if(ds && late);
        let wrap_anticipate: i64 = if ly == LCD_LINES_PER_FRAME - 1 {
            if ds { 2 } else { 1 }
        } else {
            0
        };
        let lc_master = LyCounter {
            ly,
            time: at_least_zero(
                self.next_line_master(ds) + ss_plus1 - ds_anticipate - wrap_anticipate,
            ),
            ds,
        };
        let seen: LycCompare = get_lyc_compare_ly(&lc_master, cc);
        let tail_hold: i64 = one_if(!ds && late);
        let vblank_clear_early: i64 = one_if(
            ds && late_rev(mmio) && uncharged_halt_exit(mmio) != 0,
        );
        Some(
            mmio.lyc as u32 == seen.ly && seen.time_to_next_ly > 2 - tail_hold - ds_anticipate
                - wrap_anticipate + vblank_clear_early,
        )
    }

    fn line_end_shift(&self) -> (r: i64)
        requires
            self@.in_range(),
        ensures
            r == self@.line_end_shift(),
            -2 <= r <= 0,
    {
        reveal(PpuView::line_end_shift);
        let phase: u32 = floor_mod(self.speed.render_carry_skew_cc + 2, 15);
        -((phase / 5) as i64)
    }

    fn ly_reg_last_line(&self, mmio: &Mmio, to_next: i64) -> (r: Option<u8>)
        requires
            self@.in_range(),
            to_next > i64::MIN,
        ensures
            r == self@.ly_reg_last_line(*mmio, to_next as int),
    {
        reveal(PpuView::ly_reg_last_line);
        let cpl: i64 = LCD_CYCLES_PER_LINE as i64;
        if !mmio.is_double_speed_mode() {
            let agb: i64 = one_if(mmio.is_agb());
            let de: i64 = one_if(mmio.is_cgb_de());
            let head_hold: i64 = one_if(self.dsss_ly_phase_active() && self.line_end_shift() != 0);
            if to_next - 1 <= cpl - agb - de - head_hold {
                return Some(0);
            }
            if de != 0 {
                return Some(153);
            }
            return None;
        }
        if mmio.is_double_speed_mode() && self.speed.ssds_mode3_ly_advance && !mmio.halt.skew {
            if to_next >= 2 * cpl - 10 {
                return Some(153);
            }
            return Some(0);
        }
        if to_next <= 2 * cpl - 2 {
            return Some(0);
        }
        Some(153)
    }

    fn ly_read_to_next(&self, mmio: &Mmio, to_next: i64) -> (r: i64)
        requires
            to_next > i64::MIN + 256,
        ensures
            r == self@.ly_read_to_next(*mmio, to_next as int),
            to_next - 256 < r <= to_next,
    {
        reveal(PpuView::ly_read_to_next);
        let ds = mmio.is_double_speed_mode();
        let halt_skew = mmio.halt.skew;
        let cgb_halt_exit = halt_skew && mmio.is_cgb_features_enabled() && !ds && !mmio.halt.hdma
            && !mmio.halt.m2_stall_charged_cgb;
        let ssds_haltskew = halt_skew && ds && mmio.halt.ssds_ly_advance && !mmio.halt.hdma
            && !self.speed.ssds_mode3_ly_advance;
        let cgb_m0_halt_adv: Option<u8> = if halt_skew && mmio.is_cgb()
            && !mmio.is_cgb_features_enabled() && !ds && !mmio.halt.hdma {
            mmio.halt.cgb_m0_ly_advance
        } else {
            None
        };
        if let Some(adv) = cgb_m0_halt_adv {
            to_next - adv as i64
        } else if cgb_halt_exit || ssds_haltskew {
            to_next - 5
        } else if halt_skew {
            to_next - 1
        } else {
            to_next
        }
    }

    fn ly_read_position(&self, mmio: &Mmio, cc: i64) -> (r: (u8, i64))
        requires
            self@.wf(),
            self@.in_range(),
            0 <= cc < CLOCK_LIMIT,
        ensures
            (r.0 as int, r.1 as int) == self@.ly_read_position(*mmio, cc as int),
            r.0 <= 153,
            -5 * CLOCK_LIMIT < r.1 < 5 * CLOCK_LIMIT,
    {
        reveal(PpuView::ly_read_position);
        let ds = mmio.is_double_speed_mode();
        let ssds_plain = ds && self.speed.ssds_mode3_ly_advance && !mmio.halt.skew;
        let ds_corr: i64 = if ssds_plain { 3 } else { 0 };
        let mut ly_reg: u8 = self.clk.internal_ly_val;
        let mut time: i64 = self.next_line_master(ds) + 1 + ds_corr;
        if self.speed.ssds_mode3_ly_advance && ds {
            time -= 10;
        }
        if cc >= time {
            ly_reg = inc_ly(ly_reg as u32) as u8;
            time += scaled(456, ds);
        }
        (ly_reg, time - cc - uncharged_halt_exit(mmio))
    }

    pub fn get_ly_reg_at_cc(&self, mmio: &Mmio, access_cc: u64) -> (r: Option<u8>)
        requires
            self@.wf(),
            self@.in_range(),
            access_cc < CLOCK_LIMIT,
        ensures
            r == self@.ly_reg_at_cc(*mmio, access_cc as int),
    {
        if self.disabled || !self.lcdc_has(LCDCFlags::DisplayEnable) {
            return None;
        }
        let ds = mmio.is_double_speed_mode();
        let ssds_plain = ds && self.speed.ssds_mode3_ly_advance && !mmio.halt.skew;
        let (ly_reg, to_next): (u8, i64) = self.ly_read_position(mmio, access_cc as i64);
        if ly_reg == 153 {
            return self.ly_reg_last_line(mmio, to_next);
        }
        let tn: i64 = self.ly_read_to_next(mmio, to_next);
        let next: u8 = ly_reg + 1;
        if ssds_plain {
            if tn <= 4 {
                return Some(if tn == 4 { ly_reg & next } else { next });
            }
            return None;
        }
        let glitch: i64 = 6 + 4 * one_if(ds);
        let post_stop = self.dsss_ly_phase_active();
        let par1 = post_stop && self.dsss_ly_phase_par() == 1;
        let total_par1 = post_stop && self.dsss_ly_total_par() == 1;
        let shift: i64 = if post_stop { self.line_end_shift() } else { 0 };
        let tn_eff: i64 = tn - shift;
        if tn_eff <= 10 && tn_eff <= glitch {
            let result: u8 = if tn_eff == glitch {
                if post_stop && !(!mmio.is_cgb_de() || par1 || total_par1) {
                    ly_reg
                } else {
                    ly_reg & next
                }
            } else {
                next
            };
            return Some(result);
        }
        None
    }
}

/// With the LCD off nothing is blocked, and neither STAT nor LY goes by the
/// clock.
pub proof fn law_lcd_off_blocks_nothing(
    s: PpuView,
    m: Mmio,
    kind: u8,
    is_read: bool,
    locked: bool,
    env: AccessEnv,
    cc: int,
)
    requires
        s.disabled,
    ensures
        s.cpu_access_blocked(kind, is_read, locked, env, cc) == Some(false),
        s.vram_readable_at_cc(cc, env.is_cgb, env.double_speed) == Some(true),
        s.stat_mode(m, cc) is None,
        s.lyc_flag_at_cc(m, cc) is None,
        s.ly_reg_at_cc(m, cc) is None,
{
}

/// In vertical blank video and palette memory are free, and OAM is too until
/// the last line.
pub proof fn law_vblank_leaves_memory_free(
    s: PpuView,
    kind: u8,
    is_read: bool,
    locked: bool,
    env: AccessEnv,
    cc: int,
)
    requires
        s.clk.internal_ly_val >= 144,
        kind != 1 || s.clk.internal_ly_val < 153,
    ensures
        s.cpu_access_blocked(kind, is_read, locked, env, cc) == Some(false),
{
}

/// Mode bits are mode bits.
pub proof fn law_stat_mode_is_two_bits(s: PpuView, m: Mmio, cc: int)
    ensures
        s.stat_mode(m, cc) matches Some(v) ==> v <= 3,
{
}

} // verus!
