//! What a dot does as a whole.

use vstd::prelude::*;

use crate::irq_laws::{law_line_ends_after_456_dots, law_vertical_blank_counts_to_153};
use crate::mmio::Mmio;
use crate::stat_irq::law_dispatch_keeps_the_line;
use crate::state::{Clk, PpuView, State};
use crate::window_laws::law_drawing_starts_on_its_dot;
use crate::write_laws::law_a_dot_counts;

verus! {

/// With the LCD off a dot does nothing until bit 7 of LCDC is set; then it
/// switches on and is the first dot of the frame. With the LCD on a dot runs, but
/// for the one on which bit 7 shows as clear, which switches off.
pub proof fn law_a_dot_switches_the_lcd(s: PpuView, m: Mmio)
    ensures
        ({
            let (r, n) = s.step(m);
            let on = s.enter_lcd_enabled(m);
            &&& s.disabled && m.lcdc & 0x80 == 0 ==> r == s && n == m
            &&& s.disabled && m.lcdc & 0x80 != 0 ==> (r, n) == on.0.run_dot(on.1)
            &&& !s.disabled && s.lcdc.reg & 0x80 == 0 ==> r.disabled && n.ly == 0
            &&& !s.disabled && s.lcdc.reg & 0x80 != 0 ==> (r, n) == s.run_dot(m)
        }),
{
    reveal(PpuView::step);
}

/// A dot's start moves the line counter on and leaves the picture, the mode and
/// the dot's number.
pub proof fn law_a_dot_starts_with_the_clock(s: PpuView, m: Mmio)
    requires
        s.clk.line_cycle < 456,
        s.clk.internal_ly_val < 154,
        s.clk.p_now <= m.master_cc,
    ensures
        ({
            let (r, n, fast) = s.dot_preamble(m);
            let before = 456 * s.clk.internal_ly_val + s.clk.line_cycle;
            &&& 456 * r.clk.internal_ly_val + r.clk.line_cycle == if before + 1 < 70224 {
                before + 1
            } else {
                0
            }
            &&& r.clk.line_cycle < 456
            &&& r.clk.abs_cc == m.master_cc - s.clk.p_now
            &&& r.ticks == s.ticks
            &&& r.state == s.state
            &&& r.frames == s.frames
            &&& r.fetcher == s.fetcher
            &&& r.m0 == s.m0
            &&& n.ly == m.ly
            &&& fast ==> s.state == State::PixelTransfer
        }),
{
    reveal(PpuView::dot_preamble);
    reveal(PpuView::dot_clock);
    reveal(PpuView::fast_gate);
    reveal(PpuView::oam_reader_events);
    reveal(PpuView::update_window_y_latch);
    let (clk, fast) = s.fast_gate(m);
    let s1 = PpuView { clk, ..s };
    law_dispatch_keeps_the_line(s1, m);
    let (s2, m2) = if fast { (s1, m) } else { s1.dispatch_stat_events(m) };
    law_a_dot_counts(s2, m2, fast);
}

/// A dot outside drawing counts on: 456 dots to a line, the dot's number and the
/// line's both start over together with it.
pub proof fn law_a_blank_dot_counts(s: PpuView, m: Mmio)
    requires
        s.clk.line_cycle < 456,
        s.clk.internal_ly_val < 154,
        s.clk.p_now <= m.master_cc,
        s.state == State::HBlank,
        m.ly < 144,
        s.ticks < 456,
    ensures
        ({
            let (r, n) = s.run_dot(m);
            &&& s.ticks != 455 ==> r.ticks == s.ticks + 1 && r.state == State::HBlank && n.ly == m.ly
            &&& s.ticks == 455 && m.ly < 143 ==> r.ticks == 0 && r.state == State::OAMSearch && n.ly
                == m.ly + 1
            &&& s.ticks == 455 && m.ly == 143 ==> r.ticks == 0 && r.state == State::VBlank && n.ly
                == 144
            &&& r.frames == s.frames
        }),
{
    reveal(PpuView::dot_of_mode);
    reveal(PpuView::enter_vblank);
    reveal(PpuView::enter_scheduled_mode2);
    law_a_dot_starts_with_the_clock(s, m);
    let (t, n, _fast) = s.dot_preamble(m);
    law_line_ends_after_456_dots(t, n);
}

/// The same in vertical blank, whose last line ends the frame.
pub proof fn law_a_vertical_blank_dot_counts(s: PpuView, m: Mmio)
    requires
        s.clk.line_cycle < 456,
        s.clk.internal_ly_val < 154,
        s.clk.p_now <= m.master_cc,
        s.state == State::VBlank,
        144 <= m.ly <= 153,
        !s.clk.line_153_ly_zeroed,
        s.ticks < 456,
    ensures
        ({
            let (r, n) = s.run_dot(m);
            let shows_0 = m.ly == 153 && s.ticks == 6;
            &&& s.ticks != 455 ==> r.ticks == s.ticks + 1 && n.ly == if shows_0 { 0 } else { m.ly }
            &&& s.ticks == 455 && m.ly < 153 ==> r.ticks == 0 && r.state == State::VBlank && n.ly
                == m.ly + 1
            &&& s.ticks == 455 && m.ly == 153 ==> r.ticks == 0 && r.state == State::OAMSearch
                && n.ly == 0 && r.out.have_frame
        }),
{
    reveal(PpuView::dot_of_mode);
    reveal(PpuView::zero_line_153);
    law_a_dot_starts_with_the_clock(s, m);
    lemma_zeroed_stays(s, m);
    let (t, n, _fast) = s.dot_preamble(m);
    law_vertical_blank_counts_to_153(t, n);
}

proof fn lemma_zeroed_stays(s: PpuView, m: Mmio)
    ensures
        s.dot_preamble(m).0.clk.line_153_ly_zeroed == s.clk.line_153_ly_zeroed,
        s.dot_preamble(m).0.clk.first_line_after_enable == s.clk.first_line_after_enable,
{
    reveal(PpuView::dot_preamble);
    reveal(PpuView::dot_clock);
    reveal(PpuView::fast_gate);
    reveal(PpuView::advanced_clock);
    reveal(PpuView::oam_reader_events);
    reveal(PpuView::update_window_y_latch);
    reveal(PpuView::due_writes);
    reveal(PpuView::due_irqs);
    reveal(Clk::m1_event);
    reveal(Clk::lyc_event);
    reveal(Clk::m2_event);
    reveal(Clk::m0_event);
    reveal(Clk::oneshot_event);
}

/// A dot of the scan counts on, and the dot on which drawing starts changes the
/// mode.
pub proof fn law_a_scan_dot_counts(s: PpuView, m: Mmio)
    requires
        s.clk.line_cycle < 456,
        s.clk.internal_ly_val < 154,
        s.clk.p_now <= m.master_cc,
        s.state == State::OAMSearch,
        0 < s.ticks < 456,
    ensures
        ({
            let (r, n) = s.run_dot(m);
            let dot = if s.clk.first_line_after_enable {
                if m.cgb_features { 84int } else { 85 }
            } else {
                if m.cgb_features { 82int } else { 80 }
            };
            &&& r.state == (if s.ticks == dot { State::PixelTransfer } else { State::OAMSearch })
            &&& n.ly == m.ly
        }),
{
    reveal(PpuView::dot_of_mode);
    law_a_dot_starts_with_the_clock(s, m);
    lemma_zeroed_stays(s, m);
    lemma_features_stay(s, m);
    let (t, n, _fast) = s.dot_preamble(m);
    law_drawing_starts_on_its_dot(t, n);
}

proof fn lemma_features_stay(s: PpuView, m: Mmio)
    ensures
        s.dot_preamble(m).1.cgb_features == m.cgb_features,
{
    reveal(PpuView::dot_preamble);
    reveal(PpuView::dot_clock);
    reveal(PpuView::oam_reader_events);
    let (clk, _fast) = s.fast_gate(m);
    law_dispatch_keeps_the_line(PpuView { clk, ..s }, m);
}

} // verus!
