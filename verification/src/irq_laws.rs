//! When interrupts come, told by lines and dots.

use vstd::prelude::*;

use crate::ly_counter::LyCounter;
use crate::mmio::Mmio;
use crate::power::{stat_with_lyc, stat_with_mode};
use crate::regs::DISABLED_TIME;
use crate::stat_irq::{next_frame_cycle, schedule_lyc, schedule_m2};
use crate::state::{Clk, PpuView, State};

verus! {

/// Clock cycles in some dots: two each at double speed.
pub open spec fn in_cycles(dots: int, ds: bool) -> int {
    if ds { 2 * dots } else { dots }
}

/// The clock reading at which line `k` lines after the present one starts.
pub open spec fn line_start(lc: LyCounter, k: int) -> int {
    lc.time + in_cycles(456 * (k - 1), lc.ds)
}

/// The number of that line.
pub open spec fn line_number(lc: LyCounter, k: int) -> int {
    (lc.ly + k) % 154
}

/// `cc` lies in the line that `lc` tells of.
pub open spec fn in_line(lc: LyCounter, cc: int) -> bool {
    lc.ly < 154 && 0 <= cc < lc.time <= cc + in_cycles(456, lc.ds)
}

/// The moment `t` is `dots` dots before a start of line `line`, the next such
/// moment after `cc`.
pub open spec fn next_before_line(lc: LyCounter, cc: int, t: int, line: int, dots: int) -> bool {
    &&& cc < t <= cc + in_cycles(154int * 456, lc.ds)
    &&& exists|k: int|
        #![trigger line_number(lc, k)]
        1 <= k <= 155 && line_number(lc, k) == line && t + in_cycles(dots, lc.ds) == line_start(
            lc,
            k,
        )
}

proof fn lemma_next_before(lc: LyCounter, cc: int, line: int, dots: int)
    requires
        in_line(lc, cc),
        1 <= line <= 154,
        0 <= dots <= 456,
    ensures
        next_before_line(
            lc,
            cc,
            next_frame_cycle(lc, line * 456 - dots, cc),
            line % 154,
            dots,
        ),
{
    let t = next_frame_cycle(lc, line * 456 - dots, cc);
    let far = 154 - lc.ly + line;
    let k = if line_start(lc, far) - in_cycles(dots, lc.ds) - cc > in_cycles(154int * 456, lc.ds) {
        far - 154
    } else {
        far
    };
    assert(line_number(lc, k) == line % 154);
    assert(t + in_cycles(dots, lc.ds) == line_start(lc, k));
    assert(1 <= k <= 155);
}

/// The LYC interrupt is scheduled two dots before a start of line LYC, the next
/// one to come; for line 0, six dots into line 153, which shows LY 0 from there
/// on. It is not scheduled while its source is switched off, nor for a line
/// that does not exist.
pub proof fn law_lyc_interrupt_comes_with_its_line(stat: u8, lyc: u8, lc: LyCounter, cc: int)
    requires
        in_line(lc, cc),
    ensures
        stat & 0x40 != 0 && 1 <= lyc <= 153 ==> next_before_line(
            lc,
            cc,
            schedule_lyc(stat, lyc, lc, cc),
            lyc as int,
            2,
        ),
        stat & 0x40 != 0 && lyc == 0 ==> next_before_line(
            lc,
            cc,
            schedule_lyc(stat, lyc, lc, cc),
            0,
            450,
        ),
        stat & 0x40 == 0 || lyc > 153 ==> schedule_lyc(stat, lyc, lc, cc) == DISABLED_TIME,
{
    reveal(schedule_lyc);
    if stat & 0x40 != 0 && 1 <= lyc <= 153 {
        lemma_next_before(lc, cc, lyc as int, 2);
    }
    if stat & 0x40 != 0 && lyc == 0 {
        lemma_next_before(lc, cc, 154, 450);
    }
}

/// When the LYC event comes it requests the interrupt if the line about to
/// start is LYC and its source is enabled, unless the scan's source, or
/// vertical blank's for lines 145 to 153 and 0, already holds the request line.
/// On no other line does it request anything.
pub proof fn law_lyc_event_requests_on_its_line(c: Clk, lc: LyCounter)
    requires
        lc.ly < 154,
        c.sched_lycirq <= c.abs_cc,
    ensures
        ({
            let coming = line_number(lc, 1);
            let on = c.lyc_irq.stat_reg & 0x40 != 0 || c.lyc_irq.stat_reg_src & 0x40 != 0;
            let held = if 1 <= coming <= 144 {
                c.lyc_irq.stat_reg & 0x20 != 0
            } else {
                c.lyc_irq.stat_reg & 0x10 != 0
            };
            c.lyc_event(lc).1 == if on && !held && c.lyc_irq.lyc_reg == coming { 2u8 } else { 0 }
        }),
        c.lyc_event(lc).0.lyc_irq.lyc_reg == c.lyc_irq.lyc_reg_src,
        c.lyc_event(lc).0.lyc_irq.stat_reg == c.lyc_irq.stat_reg_src,
{
    reveal(Clk::lyc_event);
}

/// Before its time the event requests nothing.
pub proof fn law_no_event_before_its_time(c: Clk, lc: LyCounter, lyc: u8)
    ensures
        c.sched_lycirq > c.abs_cc ==> c.lyc_event(lc) == (c, 0u8),
        c.sched_m1irq > c.abs_cc ==> c.m1_event(lc.ds) == (c, 0u8),
        c.sched_m2irq > c.abs_cc ==> c.m2_event(lc, lyc) == (c, 0u8),
        c.sched_m0irq > c.abs_cc ==> c.m0_event(lc.ly, lyc) == (c, 0u8),
{
    reveal(Clk::lyc_event);
    reveal(Clk::m1_event);
    reveal(Clk::m2_event);
    reveal(Clk::m0_event);
}

/// A LYC event that comes at its scheduled time comes as line LYC is about to
/// start: the line counter is then one line short of it, two dots before the
/// change.
pub proof fn law_lyc_event_finds_its_line(
    stat: u8,
    lyc: u8,
    lc: LyCounter,
    cc: int,
    now: LyCounter,
)
    requires
        in_line(lc, cc),
        stat & 0x40 != 0,
        1 <= lyc <= 153,
        in_line(now, schedule_lyc(stat, lyc, lc, cc)),
        exists|k: int|
            #![trigger line_number(lc, k)]
            now.ly == line_number(lc, k) && now.time == line_start(lc, k + 1) && now.ds == lc.ds,
    ensures
        line_number(now, 1) == lyc,
        now.time == schedule_lyc(stat, lyc, lc, cc) + in_cycles(2, lc.ds),
{
    let t = schedule_lyc(stat, lyc, lc, cc);
    law_lyc_interrupt_comes_with_its_line(stat, lyc, lc, cc);
    let k = choose|k: int|
        #![trigger line_number(lc, k)]
        1 <= k <= 155 && line_number(lc, k) == lyc && t + in_cycles(2, lc.ds) == line_start(lc, k);
    let j = choose|j: int|
        #![trigger line_number(lc, j)]
        now.ly == line_number(lc, j) && now.time == line_start(lc, j + 1) && now.ds == lc.ds;
    assert(k == j + 1);
}

/// Vertical blank is scheduled two dots before line 144, once a frame.
pub proof fn law_vertical_blank_comes_with_line_144(c: Clk, lc: LyCounter)
    requires
        in_line(lc, c.abs_cc as int),
        lc.time < 0x2000_0000_0000_0000,
    ensures
        next_before_line(
            lc,
            c.abs_cc as int,
            c.rescheduled(lc).sched_m1irq as int,
            144,
            2,
        ),
{
    lemma_next_before(lc, c.abs_cc as int, 144, 2);
}

/// When it comes, the vertical blank interrupt is requested; STAT's is too
/// where its own source alone is enabled of the three modes'. The next one is a
/// frame away.
pub proof fn law_vertical_blank_event(c: Clk, ds: bool)
    requires
        c.sched_m1irq <= c.abs_cc,
        c.abs_cc < 0x2000_0000_0000_0000,
    ensures
        ({
            let stat = c.mstat_irq.stat_reg;
            let (t, requests) = c.m1_event(ds);
            &&& requests == if stat & 0x10 != 0 && stat & 0x20 == 0 && stat & 0x08 == 0 {
                3u8
            } else {
                1
            }
            &&& t.m1_vblank_fired
            &&& t.sched_m1irq == c.sched_m1irq + in_cycles(154int * 456, ds)
        }),
{
    reveal(Clk::m1_event);
}

/// The scan interrupt is scheduled before lines that are drawn, and no others:
/// five dots before lines 1 to 143, three before line 0, to which it is confined
/// where the mode 0 source is enabled too.
pub proof fn law_scan_interrupt_comes_before_drawn_lines(stat: u8, lc: LyCounter, cc: int)
    requires
        in_line(lc, cc),
    ensures
        stat & 0x20 == 0 ==> schedule_m2(stat, lc, cc) == DISABLED_TIME,
        stat & 0x20 != 0 && stat & 0x08 != 0 ==> next_before_line(
            lc,
            cc,
            schedule_m2(stat, lc, cc),
            0,
            3,
        ),
        stat & 0x20 != 0 && stat & 0x08 == 0 ==> ({
            let t = schedule_m2(stat, lc, cc);
            ||| next_before_line(lc, cc, t, 0, 3)
            ||| exists|k: int|
                #![trigger line_number(lc, k)]
                1 <= k <= 2 && 1 <= line_number(lc, k) <= 143 && t + in_cycles(5, lc.ds)
                    == line_start(lc, k) && cc < t
        }),
{
    reveal(schedule_m2);
    lemma_next_before(lc, cc, 154, 3);
    if stat & 0x20 != 0 && stat & 0x08 == 0 {
        let line0 = next_frame_cycle(lc, 154 * 456 - 3, cc);
        let t = schedule_m2(stat, lc, cc);
        if t != line0 {
            let k = if t < lc.time { 1int } else { 2 };
            assert(t + in_cycles(5, lc.ds) == line_start(lc, k));
            assert(1 <= line_number(lc, k) <= 143);
        }
    }
}

/// When the scan event comes it requests the interrupt, unless vertical blank's
/// source holds the request line before line 0, or the LYC source does because
/// the line that ends is LYC.
pub proof fn law_scan_event_requests(c: Clk, lc: LyCounter, lyc: u8)
    requires
        lc.ly < 154,
        c.sched_m2irq <= c.abs_cc,
    ensures
        ({
            let stat = c.mstat_irq.stat_reg;
            let coming = line_number(lc, 1);
            let before = if coming == 0 { 0 } else { coming - 1 };
            let held = (coming == 0 && stat & 0x10 != 0) || (stat & 0x40 != 0 && c.mstat_irq.lyc_reg
                == before);
            c.m2_event(lc, lyc).1 == if held { 0u8 } else { 2 }
        }),
{
    reveal(Clk::m2_event);
}

/// The mode 0 event requests the interrupt where its source is enabled, unless
/// the LYC source holds the request line on this very line; it comes once.
pub proof fn law_mode0_event_requests(c: Clk, ly: u32, lyc: u8)
    requires
        c.sched_m0irq <= c.abs_cc,
    ensures
        ({
            let stat = c.mstat_irq.stat_reg;
            let held = stat & 0x40 != 0 && c.mstat_irq.lyc_reg == ly;
            &&& c.m0_event(ly, lyc).1 == if stat & 0x08 != 0 && !held { 2u8 } else { 0 }
            &&& c.m0_event(ly, lyc).0.sched_m0irq == DISABLED_TIME
        }),
{
    reveal(Clk::m0_event);
}

/// Whatever is requested is added to the requests that stand.
pub proof fn law_events_add_requests(s: PpuView, m: Mmio)
    ensures
        ({
            let n = s.dispatch_stat_events(m).1;
            &&& n.irq & m.irq == m.irq
            &&& n.irq == m.irq || n.irq == m.irq | s.due_writes(m).clk.irq_events(
                s.ly_counter(m),
                m.lyc,
            ).1
        }),
{
    reveal(PpuView::due_irqs);
    let req = s.due_writes(m).clk.irq_events(s.ly_counter(m), m.lyc).1;
    let irq = m.irq;
    assert((irq | req) & irq == irq) by (bit_vector);
    assert(irq & irq == irq) by (bit_vector);
}

/// Every event that is due adds its own request.
pub proof fn law_due_events_all_request(c: Clk, lc: LyCounter, lyc: u8)
    ensures
        ({
            let c1 = c.m1_event(lc.ds).0;
            let c2 = c1.lyc_event(lc).0;
            let c3 = c2.m2_event(lc, lyc).0;
            let all = c.irq_events(lc, lyc).1;
            &&& all & c.m1_event(lc.ds).1 == c.m1_event(lc.ds).1
            &&& all & c1.lyc_event(lc).1 == c1.lyc_event(lc).1
            &&& all & c2.m2_event(lc, lyc).1 == c2.m2_event(lc, lyc).1
            &&& all & c3.m0_event(lc.ly, lyc).1 == c3.m0_event(lc.ly, lyc).1
        }),
{
    let (c1, a) = c.m1_event(lc.ds);
    let (c2, b) = c1.lyc_event(lc);
    let (c3, d) = c2.m2_event(lc, lyc);
    let (c4, e) = c3.m0_event(lc.ly, lyc);
    let (c5, f) = c4.oneshot_event();
    assert((a | b | d | e | f) & a == a && (a | b | d | e | f) & b == b && (a | b | d | e | f) & d
        == d && (a | b | d | e | f) & e == e) by (bit_vector);
}

/// Setting the mode in STAT changes its two low bits alone, setting the LYC flag
/// bit 2 alone.
pub proof fn law_stat_fields(stat: u8, mode: u8, met: bool)
    requires
        mode < 4,
    ensures
        stat_with_mode(stat, mode) & 0x03 == mode,
        stat_with_mode(stat, mode) & 0xFC == stat & 0xFC,
        (stat_with_lyc(stat, met) & 0x04 != 0) == met,
        stat_with_lyc(stat, met) & 0xFB == stat & 0xFB,
{
    let a = stat_with_mode(stat, mode);
    let b = stat_with_lyc(stat, met);
    assert(((stat & 0xFC) | (mode & 0x03)) & 0x03 == mode && ((stat & 0xFC) | (mode & 0x03)) & 0xFC
        == stat & 0xFC) by (bit_vector)
        requires
            mode < 4,
    ;
    assert(((stat | 0x04) & 0x04 != 0) && (stat | 0x04) & 0xFB == stat & 0xFB && ((stat & 0xFB) & 0x04
        == 0) && (stat & 0xFB) & 0xFB == stat & 0xFB) by (bit_vector);
}

/// The LYC flag shows whether LYC is the line, which in the last two dots of
/// lines 0 to 152 is already the next.
pub proof fn law_lyc_flag_shows_the_match(s: PpuView, m: Mmio)
    requires
        s.wf(),
        m.ly < 153,
    ensures
        ({
            let n = s.lyc_flagged(m, false);
            let shown = if s.clk.line_cycle >= 454 && s.clk.internal_ly_val <= 152 {
                m.ly + 1
            } else {
                m.ly as int
            };
            &&& (n.stat & 0x04 != 0) == (m.lyc == shown)
            &&& n.stat & 0xFB == m.stat & 0xFB
            &&& n == (Mmio { stat: n.stat, ..m })
        }),
{
    law_stat_fields(m.stat, 0, m.lyc == s.effective_ly_for_lyc_compare(m));
}

/// The last dot of a line that is drawn takes LY to the next: to the scan of the
/// next line, mode 2, or after line 143 to vertical blank, mode 1, whose
/// interrupt is requested unless its event has done so.
pub proof fn law_line_ends_after_456_dots(s: PpuView, m: Mmio)
    requires
        s.state == State::HBlank,
    ensures
        ({
            let (t, n, ended) = s.step_hblank(m);
            &&& ended == (s.ticks == 455)
            &&& !ended ==> t == s && n == m
            &&& ended && m.ly < 143 ==> t.state == State::OAMSearch && t.ticks == 0 && n.ly == m.ly
                + 1 && n.stat & 0x03 == 2 && n.irq == m.irq
            &&& ended && m.ly >= 143 ==> t.state == State::VBlank && t.ticks == 0 && n.ly == 144
                && n.stat & 0x03 == 1 && (s.clk.m1_vblank_fired || n.irq & 0x01 != 0)
        }),
{
    reveal(PpuView::enter_vblank);
    reveal(PpuView::enter_scheduled_mode2);
    law_stat_fields(m.stat, 2, false);
    law_stat_fields(m.stat, 1, false);
    let irq = m.irq;
    assert((irq | 0x01) & 0x01 != 0) by (bit_vector);
}

/// Vertical blank counts LY to 153, shows 0 from the sixth dot of that line on,
/// and ends with it: line 0's scan begins.
pub proof fn law_vertical_blank_counts_to_153(s: PpuView, m: Mmio)
    requires
        s.state == State::VBlank,
        144 <= m.ly <= 153 || s.clk.line_153_ly_zeroed,
    ensures
        ({
            let (t, n, ended) = s.step_vblank(m);
            let zero = !s.clk.line_153_ly_zeroed && m.ly == 153 && s.ticks == 6;
            &&& ended == (s.ticks == 455)
            &&& !ended ==> n.ly == if zero { 0 } else { m.ly }
            &&& ended && m.ly != 153 && !s.clk.line_153_ly_zeroed ==> n.ly == m.ly + 1 && t.state
                == State::VBlank && t.ticks == 0
            &&& ended && (m.ly == 153 || s.clk.line_153_ly_zeroed) ==> n.ly == 0 && t.state
                == State::OAMSearch && t.ticks == 0 && n.stat & 0x03 == 2 && t.out.have_frame
        }),
{
    reveal(PpuView::zero_line_153);
    reveal(PpuView::next_vblank_line);
    reveal(PpuView::enter_scheduled_mode2);
    reveal(PpuView::finished_out);
    law_stat_fields(m.stat, 2, false);
}

} // verus!
