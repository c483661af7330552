//! Why dots of mode 3 can go fast.

use vstd::prelude::*;

use crate::mmio::Mmio;
use crate::regs::dots_to_cycles;
use crate::stat_irq::{FAST_LAST_CYCLE, FAST_LAST_DOT};
use crate::state::{PpuView, State};

verus! {

impl PpuView {
    /// For `n` dots to come no event is due and nothing of the next line shows.
    pub open spec fn clear_ahead(self, n: int, ds: bool) -> bool {
        n > 0 ==> {
            &&& self.clk.abs_cc + dots_to_cycles(n, ds) < self.clk.sched_min
            &&& self.clk.line_cycle + n <= FAST_LAST_CYCLE
            &&& self.ticks + n <= FAST_LAST_DOT
        }
    }
}

/// The way is clear for as many dots as drawing may go fast.
pub proof fn law_fast_budget_is_clear(s: PpuView, m: Mmio)
    ensures
        s.clear_ahead(s.mode3_fast_budget(m), m.double_speed),
{
}

/// With the way clear, what a fast dot leaves out would have done nothing: no
/// event is due, LY and LYC compare as before, WY is not compared, and neither
/// the line number nor, outside the frame's start, the glitch window changes.
pub proof fn law_fast_dot_leaves_nothing_out(s: PpuView, m: Mmio, n: int)
    requires
        n > 0,
        s.clear_ahead(n, m.double_speed),
        s.state == State::PixelTransfer,
        s.wf(),
    ensures
        s.dispatch_stat_events(m) == (s, m),
        ({
            let t = PpuView { clk: s.advanced_clock(m, true), ..s };
            &&& t.update_window_y_latch(m) == t
            &&& t.effective_ly_for_lyc_compare(m) == m.ly
            &&& t.clk.internal_ly_val == s.clk.internal_ly_val
            &&& !s.clk.l154_vblank_glitch_window || s.clk.internal_ly_val == 0 ==> t.clk
                == s.advanced_clock(m, false)
        }),
        m.wx == s.m0.m3_scheduled_wx && s.window_will_start(m) == s.m0.m3_scheduled_win
            ==> s.rekey_wx_change(m, true) == s.rekey_wx_change(m, false)
            && s.resolve_wx_penalty(m, true) == s.resolve_wx_penalty(m, false),
{
    reveal(PpuView::advanced_clock);
    reveal(PpuView::update_window_y_latch);
    reveal(PpuView::rekey_wx_change);
    reveal(PpuView::resolve_wx_penalty);
}

/// A dot later the way is clear for one dot less.
pub proof fn law_clear_dots_run_down(s: PpuView, t: PpuView, n: int, ds: bool)
    requires
        s.clear_ahead(n, ds),
        t.clk.abs_cc == s.clk.abs_cc + dots_to_cycles(1, ds),
        t.clk.line_cycle == s.clk.line_cycle + 1,
        t.ticks == s.ticks + 1,
        t.clk.sched_min == s.clk.sched_min,
    ensures
        t.clear_ahead(n - 1, ds),
{
}

} // verus!
