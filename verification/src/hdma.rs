//! When a horizontal-blank DMA may run.

use vstd::prelude::*;

use crate::state::{Ppu, PpuView};

verus! {

impl PpuView {
    /// Whether `cc` lies in the span from `lo` up to but not including `hi`
    /// after the line's mode 3 ends. Not known while the LCD is off or the end
    /// is not scheduled; never so in vertical blank.
    pub open spec fn within_mode0(self, cc: int, lo: int, hi: int) -> Option<bool> {
        if self.disabled {
            None
        } else if self.clk.internal_ly_val >= 144 {
            Some(false)
        } else {
            match self.m0.m0_time_master {
                None => None,
                Some(m0t) => Some(lo <= cc - m0t < hi),
            }
        }
    }

    /// The window in which leaving HALT lets a DMA run.
    pub open spec fn hdma_period_unhalt(self, cc: int, ds: bool) -> Option<bool> {
        self.within_mode0(cc, 0, if ds { 400 } else { 198 })
    }

    /// The window in which entering HALT lets a DMA run.
    pub open spec fn hdma_period_halt(self, cc: int, ds: bool) -> Option<bool> {
        self.within_mode0(cc, 0, if ds { 410 } else { 208 })
    }

    /// The window in which switching the DMA on starts a block at once: not on
    /// the strength of an earlier line's end of mode 3.
    pub open spec fn hdma_period_kick(self, cc: int, ds: bool) -> Option<bool> {
        match self.within_mode0(cc, 0, if ds { 395 } else { 192 }) {
            Some(b) => Some(b && !self.m0_time_is_stale(ds)),
            None => None,
        }
    }

    /// The end of mode 3 that is scheduled belongs to an earlier line.
    pub open spec fn m0_time_is_stale(self, ds: bool) -> bool {
        self.m0.m0_time_master matches Some(m0t) && m0t < self.line_start_master_cc(ds)
    }

    /// Fine scroll by one lets the DMA see the end of mode 3 a dot early.
    pub open spec fn dma_scx_m0_nudge(self, vram: bool) -> int {
        if self.m3.m3_arm_scx & 0x07 == if vram { 3u8 } else { 1 } { -1 } else { 0 }
    }

    /// The window of leaving HALT with its end moved by `adj` cycles.
    pub open spec fn hdma_period_unhalt_by(self, cc: int, ds: bool, adj: int) -> Option<bool> {
        self.within_mode0(cc, 0, (if ds { 400int } else { 198 }) + adj)
    }

    /// The window in which the DMA runs ahead of an interrupt's pushes.
    pub open spec fn hdma_before_pushes(self, cc: int, ds: bool) -> Option<bool> {
        self.within_mode0(cc, -1, if ds { 400 } else { 198 })
    }

    /// The last moment at which a DMA can still be switched off.
    pub open spec fn dma_edge(self, ds: bool) -> Option<int> {
        match self.m0.m0_time_master {
            None => None,
            Some(m0t) => Some(m0t - if ds { 4int } else { 6 }),
        }
    }

    /// Whether switching the DMA off at `cc` comes too late.
    pub open spec fn dma_disable_fires(self, cc: int, ds: bool) -> Option<bool> {
        if self.disabled {
            None
        } else if self.clk.internal_ly_val >= 144 {
            Some(false)
        } else {
            match self.dma_edge(ds) {
                None => None,
                Some(edge) => Some(!self.m0_time_is_stale(ds) && cc >= edge),
            }
        }
    }

    pub open spec fn hdma_period(self, ds: bool) -> Option<bool> {
        if self.disabled {
            None
        } else {
            match self.m0.scheduled_mode0_dot {
                None => None,
                Some(m0) => if self.clk.internal_ly_val >= 144 {
                    Some(false)
                } else {
                    Some(
                        m0 + self.dma_scx_m0_nudge(false) < self.ticks < 456 - 3 - if ds {
                            3int
                        } else {
                            0
                        },
                    )
                },
            }
        }
    }
}

impl Ppu {
    fn dma_scx_m0_nudge(&self, vram: bool) -> (r: i64)
        ensures
            r == self@.dma_scx_m0_nudge(vram),
    {
        let scx: u8 = self.m3.m3_arm_scx & 0x07;
        match (vram, scx) {
            (false, 1) => -1,
            (true, 3) => -1,
            _ => 0,
        }
    }

    /// Whether the current dot lies in the line's DMA window: after the end of
    /// mode 3 and clear of the line's last dots.
    pub fn hdma_period(&self, double_speed: bool) -> (r: Option<bool>)
        requires
            self@.in_range(),
        ensures
            r == self@.hdma_period(double_speed),
    {
        if self.disabled {
            return None;
        }
        let m0: i128 = match self.m0.scheduled_mode0_dot {
            Some(d) => d as i128,
            None => {
                return None;
            },
        };
        if self.clk.internal_ly_val >= 144 {
            return Some(false);
        }
        let ds: i128 = if double_speed { 1 } else { 0 };
        let dot: i128 = self.ticks as i128;
        let m0n: i128 = m0 + self.dma_scx_m0_nudge(false) as i128;
        Some(dot > m0n && dot + 3 + 3 * ds < 456)
    }

    pub fn hdma_period_unhalt(&self, access_cc: u64, double_speed: bool) -> (r: Option<bool>)
        ensures
            r == self@.hdma_period_unhalt(access_cc as int, double_speed),
    {
        self.hdma_period_unhalt_adj(access_cc, double_speed, 0)
    }

    pub fn m0_time_master_cc(&self) -> (r: Option<u64>)
        ensures
            r == self@.m0.m0_time_master,
    {
        self.m0.m0_time_master
    }

    /// The window in which leaving HALT lets a DMA run, `limit_adj` cycles
    /// longer than usual.
    pub fn hdma_period_unhalt_adj(
        &self,
        access_cc: u64,
        double_speed: bool,
        limit_adj: i64,
    ) -> (r: Option<bool>)
        ensures
            r == self@.within_mode0(
                access_cc as int,
                0,
                (if double_speed { 400int } else { 198 }) + limit_adj,
            ),
            r == self@.hdma_period_unhalt_by(access_cc as int, double_speed, limit_adj as int),
    {
        if self.disabled {
            return None;
        }
        if self.clk.internal_ly_val >= 144 {
            return Some(false);
        }
        let m0t: u64 = match self.m0.m0_time_master {
            Some(t) => t,
            None => {
                return None;
            },
        };
        if access_cc < m0t {
            return Some(false);
        }
        let depth: u64 = access_cc - m0t;
        let limit: i128 = (if double_speed { 400 } else { 198 }) + limit_adj as i128;
        Some((depth as i128) < limit)
    }

    /// The window in which entering HALT lets a DMA run.
    pub fn hdma_period_halt(&self, access_cc: u64, double_speed: bool) -> (r: Option<bool>)
        ensures
            r == self@.hdma_period_halt(access_cc as int, double_speed),
    {
        if self.disabled {
            return None;
        }
        if self.clk.internal_ly_val >= 144 {
            return Some(false);
        }
        let m0t: u64 = match self.m0.m0_time_master {
            Some(t) => t,
            None => {
                return None;
            },
        };
        if access_cc < m0t {
            return Some(false);
        }
        let depth: u64 = access_cc - m0t;
        let limit: u64 = if double_speed { 410 } else { 208 };
        Some(depth < limit)
    }

    /// Whether the DMA runs ahead of the pushes of the interrupt that ends the
    /// HALT.
    pub fn hdma_unhalt_fires_before_pushes(
        &self,
        access_cc: u64,
        double_speed: bool,
    ) -> (r: Option<bool>)
        ensures
            r == self@.within_mode0(access_cc as int, -1, if double_speed { 400 } else { 198 }),
            r == self@.hdma_before_pushes(access_cc as int, double_speed),
    {
        if self.disabled {
            return None;
        }
        if self.clk.internal_ly_val >= 144 {
            return Some(false);
        }
        let m0t: i128 = match self.m0.m0_time_master {
            Some(t) => t as i128,
            None => {
                return None;
            },
        };
        let cc: i128 = access_cc as i128;
        let in_start = cc + 1 >= m0t;
        let in_end = (cc - m0t) < (if double_speed { 400 } else { 198 });
        Some(in_start && in_end)
    }

    /// Whether switching the DMA on starts a block at once.
    pub fn hdma_period_kick(&self, access_cc: u64, double_speed: bool) -> (r: Option<bool>)
        requires
            self@.wf(),
            self@.in_range(),
        ensures
            r == self@.hdma_period_kick(access_cc as int, double_speed),
    {
        if self.disabled {
            return None;
        }
        if self.clk.internal_ly_val >= 144 {
            return Some(false);
        }
        let m0t: i64 = match self.m0.m0_time_master {
            Some(t) => t as i64,
            None => {
                return None;
            },
        };
        let cc: i128 = access_cc as i128;
        if m0t < self.line_start_master_cc(double_speed) {
            return Some(false);
        }
        if cc < m0t as i128 {
            return Some(false);
        }
        let depth: i128 = cc - m0t as i128;
        let limit: i128 = if double_speed { 395 } else { 192 };
        Some(depth < limit)
    }

    /// Whether switching the DMA off comes too late to stop the line's block.
    pub fn hdma_disable_fires(&self, access_cc: u64, double_speed: bool) -> (r: Option<bool>)
        requires
            self@.wf(),
            self@.in_range(),
            access_cc <= i64::MAX,
        ensures
            r == if self@.disabled {
                None
            } else if self@.clk.internal_ly_val >= 144 {
                Some(false)
            } else {
                match self@.m0.m0_time_master {
                    None => None,
                    Some(m0t) => Some(
                        !self@.m0_time_is_stale(double_speed) && access_cc >= m0t - if double_speed {
                            4int
                        } else {
                            6
                        },
                    ),
                }
            },
            r == self@.dma_disable_fires(access_cc as int, double_speed),
    {
        if self.disabled {
            return None;
        }
        if self.clk.internal_ly_val >= 144 {
            return Some(false);
        }
        let m0t: i64 = match self.m0.m0_time_master {
            Some(t) => t as i64,
            None => {
                return None;
            },
        };
        let gap: i64 = if double_speed { 4 } else { 6 };
        let edge: i64 = m0t - gap;
        let cc: i64 = access_cc as i64;
        if m0t < self.line_start_master_cc(double_speed) {
            return Some(false);
        }
        Some(cc >= edge)
    }

    /// The last moment at which a DMA can still be switched off.
    pub fn hdma_m0_edge(&self, double_speed: bool) -> (r: Option<i64>)
        requires
            self@.in_range(),
        ensures
            r matches Some(e) ==> self@.m0.m0_time_master matches Some(m0t) && e == m0t - if double_speed {
                4int
            } else {
                6
            },
            r is None <==> self@.m0.m0_time_master is None,
            r matches Some(e) ==> self@.dma_edge(double_speed) == Some(e as int),
    {
        let m0t: i64 = match self.m0.m0_time_master {
            Some(t) => t as i64,
            None => {
                return None;
            },
        };
        let gap: i64 = if double_speed { 4 } else { 6 };
        Some(m0t - gap)
    }
}

/// The windows nest: a DMA that a kick starts could have run out of HALT, and
/// one that could could have run into it.
pub proof fn law_dma_windows_nest(s: PpuView, cc: int, ds: bool)
    ensures
        s.hdma_period_kick(cc, ds) == Some(true) ==> s.hdma_period_unhalt(cc, ds) == Some(true),
        s.hdma_period_unhalt(cc, ds) == Some(true) ==> s.hdma_period_halt(cc, ds) == Some(true),
        s.hdma_period_unhalt(cc, ds) == Some(true) ==> s.within_mode0(
            cc,
            -1,
            if ds { 400 } else { 198 },
        ) == Some(true),
{
}

/// No DMA window opens in vertical blank, and none is known with the LCD off.
pub proof fn law_no_dma_window_in_vblank(s: PpuView, cc: int, lo: int, hi: int, ds: bool)
    ensures
        s.disabled ==> s.within_mode0(cc, lo, hi) is None && s.hdma_period(ds) is None,
        !s.disabled && s.clk.internal_ly_val >= 144 ==> s.within_mode0(cc, lo, hi) == Some(false)
            && s.hdma_period(ds) != Some(true),
{
}

} // verus!
