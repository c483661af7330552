//! Palette writes while a line is scanned or drawn.

use vstd::prelude::*;

use crate::mmio::Mmio;
use crate::state::{EarlyBgp, Plot, Ppu, PpuView, State};

verus! {

/// Dots from a palette write to the first pixel that shows it.
pub const MID_M3_PAL_LATENCY: u128 = 1;

impl PpuView {
    /// A BGP write. Among the line's pixels it is noted with the pixel it lands
    /// on, which may see the old and the new palette at once; on DMG hardware a
    /// write off the CPU's four-cycle grid takes effect as many dots later as
    /// it lies off it. During the scan it is kept for the start of drawing.
    #[verifier::opaque]
    pub open spec fn on_bgp_write(self, value: u8, m: Mmio) -> PpuView {
        let cc = self.write_cc(m.double_speed) as u64;
        let before = self.plot.bgp_delayed;
        if self.disabled {
            self
        } else if self.state == State::PixelTransfer {
            PpuView {
                hist: self.hist.with_bgp(
                    cc,
                    self.x,
                    before | value,
                    (self.x + MID_M3_PAL_LATENCY) as u64,
                    (self.ticks + MID_M3_PAL_LATENCY) as u128,
                    value,
                ),
                plot: Plot {
                    bgp_defer_hold: before,
                    bgp_defer_countdown: if m.is_cgb() { 0 } else { (m.master_cc % 4) as u8 },
                    ..self.plot
                },
                ..self
            }
        } else if self.state == State::OAMSearch {
            PpuView {
                plot: Plot { bgp_mode2_pending: Some(EarlyBgp { cc, value }), ..self.plot },
                ..self
            }
        } else {
            self
        }
    }

    /// An object palette write, to the second palette if `second`. Among the
    /// line's pixels it is noted with the column and the dot it shows from.
    #[verifier::opaque]
    pub open spec fn on_obp_write(self, second: bool, value: u8) -> PpuView {
        if !self.disabled && self.state == State::PixelTransfer {
            PpuView {
                hist: self.hist.with_obp(
                    second,
                    (self.x + MID_M3_PAL_LATENCY) as u64,
                    (self.ticks + MID_M3_PAL_LATENCY) as u128,
                    value,
                ),
                ..self
            }
        } else {
            self
        }
    }
}

impl Ppu {
    /// Takes note of a BGP write.
    pub fn on_bgp_write(&mut self, value: u8, mmio: &Mmio)
        requires
            old(self).wf(),
            old(self)@.in_range(),
        ensures
            final(self).wf(),
            final(self)@ == old(self)@.on_bgp_write(value, *mmio),
    {
        reveal(PpuView::on_bgp_write);
        if self.disabled {
            return;
        }
        let cc: u64 = self.write_cc(mmio.is_double_speed_mode());
        if self.state == State::PixelTransfer {
            let before: u8 = self.plot.bgp_delayed;
            let hold: u8 = if mmio.is_cgb() { 0 } else { (mmio.master_cc() % 4) as u8 };
            let col: u64 = self.x as u64 + MID_M3_PAL_LATENCY as u64;
            let dot: u128 = self.ticks + MID_M3_PAL_LATENCY;
            self.hist.push_bgp(cc, self.x, before | value, col, dot, value);
            self.plot = Plot { bgp_defer_hold: before, bgp_defer_countdown: hold, ..self.plot };
        } else if self.state == State::OAMSearch {
            self.plot = Plot { bgp_mode2_pending: Some(EarlyBgp { cc, value }), ..self.plot };
        }
    }

    /// Takes note of an object palette write.
    pub fn on_obp_write(&mut self, second: bool, value: u8)
        requires
            old(self).wf(),
            old(self)@.in_range(),
        ensures
            final(self).wf(),
            final(self)@ == old(self)@.on_obp_write(second, value),
    {
        reveal(PpuView::on_obp_write);
        if !self.disabled && self.state == State::PixelTransfer {
            let col: u64 = self.x as u64 + MID_M3_PAL_LATENCY as u64;
            let dot: u128 = self.ticks + MID_M3_PAL_LATENCY;
            self.hist.push_obp(second, col, dot, value);
        }
    }
}

} // verus!
