//! What the CPU and DMA find at a clock cycle, told by the line and its dots.

use vstd::prelude::*;

use crate::irq_laws::in_cycles;
use crate::m3_length::law_m3_length_bounds;
use crate::mmio::Mmio;
use crate::reads::AccessEnv;
use crate::regs::signed;
use crate::state::{PpuView, State};

verus! {

/// No HALT has just ended.
pub open spec fn no_halt(m: Mmio) -> bool {
    !m.halt.skew && !m.halt.grid_cgb
}

/// The master clock reading at which the next line starts.
pub open spec fn line_change(s: PpuView, ds: bool) -> int {
    signed(s.clk.p_now) + s.clk.abs_cc + in_cycles(456 - s.clk.line_cycle, ds)
}

/// Reading `cc` of the master clock falls on dot `dot` of the line; a read at
/// double speed looks a cycle back.
pub open spec fn at_dot(s: PpuView, m: Mmio, cc: int, dot: int) -> bool {
    let left = line_change(s, m.double_speed) - cc + if m.double_speed { 1int } else { 0 };
    in_cycles(456 - dot, m.double_speed) <= left < in_cycles(457 - dot, m.double_speed)
}

/// The LCD is on and has been since before `cc`.
pub open spec fn settled(s: PpuView, cc: int) -> bool {
    !s.disabled && s.lcdc.reg & 0x80 != 0 && s.clk.display_enable_inactive_until <= cc
}

/// STAT shows mode 2 on the first 77 dots of lines 0 to 143.
pub proof fn law_scan_reads_as_mode_2(s: PpuView, m: Mmio, cc: int, dot: int)
    requires
        settled(s, cc),
        no_halt(m),
        s.clk.internal_ly_val <= 143,
        s.state != State::PixelTransfer,
        cc >= 1,
        0 <= dot < 77,
        at_dot(s, m, cc, dot),
    ensures
        s.stat_mode(m, cc) == Some(2u8),
{
    let back = if m.double_speed { cc - 1 } else { cc };
    assert(s.stat_read_cc(m, cc) == back);
    if m.double_speed {
        assert((s.next_line_master(true) - back) / 2 == 456 - dot);
    }
}

/// So they do whatever else the line has come to, by the line's dots alone.
pub proof fn law_first_dots_read_as_mode_2(s: PpuView, m: Mmio, cc: int, dot: int)
    requires
        settled(s, cc),
        no_halt(m),
        s.clk.internal_ly_val <= 143,
        cc >= 1,
        0 <= dot < 77,
        at_dot(s, m, cc, dot),
    ensures
        s.stat_mode_at_cc(m, cc) == Some(2u8),
{
    let back = if m.double_speed { cc - 1 } else { cc };
    assert(s.stat_read_cc(m, cc) == back);
    if m.double_speed {
        assert((s.next_line_master(true) - back) / 2 == 456 - dot);
    }
}

/// From the 77th dot on STAT shows mode 3, while the scan is still ending too.
pub proof fn law_end_of_scan_reads_as_mode_3(s: PpuView, m: Mmio, cc: int, dot: int)
    requires
        settled(s, cc),
        no_halt(m),
        s.clk.internal_ly_val <= 143,
        s.state == State::OAMSearch,
        !s.clk.first_line_after_enable,
        !s.speed.lytime_no_plus1,
        s.line.sprites.len() <= 10,
        cc >= 1,
        77 <= dot < 100,
        at_dot(s, m, cc, dot),
    ensures
        s.stat_mode(m, cc) == Some(3u8),
{
    let back = if m.double_speed { cc - 1 } else { cc };
    assert(s.stat_read_cc(m, cc) == back);
    if m.double_speed {
        assert((s.next_line_master(true) - back) / 2 == 456 - dot);
    }
    law_m3_length_bounds(s, m, m.cgb_features);
}

/// How far into a line a mode lies: the scan, then drawing, then the blank.
pub open spec fn stage(mode: Option<u8>) -> int {
    if mode == Some(2u8) {
        0
    } else if mode == Some(3u8) {
        1
    } else if mode == Some(0u8) {
        2
    } else {
        3
    }
}

/// Of two reads on one line the later one is never behind the earlier: the modes
/// go 2, 3, 0, and no other shows.
pub proof fn law_modes_go_2_3_0(s: PpuView, m: Mmio, a: int, b: int, dot_a: int, dot_b: int)
    requires
        settled(s, a),
        no_halt(m),
        s.clk.internal_ly_val <= 143,
        s.state == State::HBlank,
        s.m0.m0_time_master is Some,
        1 <= a <= b,
        0 <= dot_a <= dot_b < 449,
        at_dot(s, m, a, dot_a),
        at_dot(s, m, b, dot_b),
    ensures
        stage(s.stat_mode(m, a)) <= stage(s.stat_mode(m, b)) <= 2,
        dot_a < 77 <==> s.stat_mode(m, a) == Some(2u8),
{
    let back_a = if m.double_speed { a - 1 } else { a };
    let back_b = if m.double_speed { b - 1 } else { b };
    assert(s.stat_read_cc(m, a) == back_a);
    assert(s.stat_read_cc(m, b) == back_b);
    if m.double_speed {
        assert((s.next_line_master(true) - back_a) / 2 == 456 - dot_a);
        assert((s.next_line_master(true) - back_b) / 2 == 456 - dot_b);
    }
}

/// The read ahead of the end of mode 3, in cycles: three at single speed, two at
/// double speed and six there on late revisions; speed switches move it.
pub open spec fn looks_ahead(s: PpuView, m: Mmio) -> int {
    let late = m.cgb_de || m.agb_curve is Some;
    if s.speed.lytime_no_plus1 {
        2 - s.speed.render_carry_skew_cc + if m.double_speed && late { 4int } else { 0 }
    } else if !m.double_speed {
        3
    } else if late {
        6
    } else {
        2
    }
}

/// While pixels are put out STAT shows mode 3 until the end of mode 3, as far as
/// a read looks ahead, and mode 0 from there on.
pub proof fn law_drawing_reads_as_mode_3_then_0(s: PpuView, m: Mmio, cc: int)
    requires
        !s.disabled,
        s.lcdc.reg & 0x80 != 0,
        no_halt(m),
        s.clk.internal_ly_val <= 143,
        s.state == State::PixelTransfer,
        s.m0.m0_time_master is Some,
    ensures
        s.stat_mode(m, cc) == Some(
            if cc + looks_ahead(s, m) < s.m0.m0_time_master->0 {
                3u8
            } else {
                0
            },
        ),
{
}

/// After drawing, until the next line is close, STAT shows mode 0: the end of
/// mode 3 has passed. Before that end it would show mode 3.
pub proof fn law_rest_of_the_line_reads_as_mode_0(s: PpuView, m: Mmio, cc: int, dot: int)
    requires
        settled(s, cc),
        no_halt(m),
        s.clk.internal_ly_val <= 143,
        s.state == State::HBlank,
        s.m0.m0_time_master is Some,
        cc >= 1,
        77 <= dot < 449,
        at_dot(s, m, cc, dot),
    ensures
        cc - 1 >= s.m0.m0_time_master->0 && !s.speed.lytime_no_plus1 ==> s.stat_mode(m, cc) == Some(
            0u8,
        ),
        cc + 6 < s.m0.m0_time_master->0 && !s.speed.lytime_no_plus1 ==> s.stat_mode(m, cc) == Some(
            3u8,
        ),
{
    let back = if m.double_speed { cc - 1 } else { cc };
    assert(s.stat_read_cc(m, cc) == back);
    if m.double_speed {
        assert((s.next_line_master(true) - back) / 2 == 456 - dot);
    }
}

/// In vertical blank, away from its first and last dots, STAT shows mode 1.
pub proof fn law_vertical_blank_reads_as_mode_1(s: PpuView, m: Mmio, cc: int, dot: int)
    requires
        settled(s, cc),
        no_halt(m),
        144 <= s.clk.internal_ly_val <= 153,
        cc >= 1,
        0 <= dot < 450,
        at_dot(s, m, cc, dot),
    ensures
        s.stat_mode(m, cc) == Some(1u8),
{
    let back = if m.double_speed { cc - 1 } else { cc };
    assert(s.stat_read_cc(m, cc) == back);
    if m.double_speed {
        assert((s.next_line_master(true) - back) / 2 == 456 - dot);
    }
}

/// The last three dots of lines 0 to 142 show mode 2 already.
pub proof fn law_line_end_reads_as_mode_2(s: PpuView, m: Mmio, cc: int, dot: int)
    requires
        settled(s, cc),
        no_halt(m),
        s.clk.internal_ly_val <= 142,
        s.state != State::PixelTransfer,
        cc >= 1,
        453 <= dot <= 456,
        at_dot(s, m, cc, dot),
    ensures
        s.stat_mode(m, cc) == Some(2u8),
{
    let back = if m.double_speed { cc - 1 } else { cc };
    assert(s.stat_read_cc(m, cc) == back);
    if m.double_speed {
        assert((s.next_line_master(true) - back) / 2 == 456 - dot);
    }
}

/// No speed switch has moved the line counter.
pub open spec fn plain_speed(s: PpuView) -> bool {
    !s.speed.ssds_mode3_ly_advance && s.speed.dsss_ly_total_count == 0
}

/// Clock cycles from a read of LY at `cc` to the change of line it can see.
pub open spec fn ly_read_left(s: PpuView, m: Mmio, cc: int) -> int {
    line_change(s, m.double_speed) + 1 - cc
}

/// A read of LY sees the register itself until six cycles before the change of
/// line, ten at double speed. On that very cycle the two numbers meet and it
/// sees their common bits, and from there on the next line's number.
pub proof fn law_ly_reads_turn_with_the_line(s: PpuView, m: Mmio, cc: int)
    requires
        !s.disabled,
        s.lcdc.reg & 0x80 != 0,
        no_halt(m),
        plain_speed(s),
        s.clk.internal_ly_val < 153,
        ly_read_left(s, m, cc) > 0,
    ensures
        ({
            let left = ly_read_left(s, m, cc);
            let turn = if m.double_speed { 10int } else { 6 };
            let ly = s.clk.internal_ly_val;
            let next = (ly + 1) as u8;
            s.ly_reg_at_cc(m, cc) == if left > turn {
                None
            } else if left == turn {
                Some(ly & next)
            } else {
                Some(next)
            }
        }),
{
    reveal(PpuView::ly_read_position);
    reveal(PpuView::ly_read_to_next);
}

/// On line 153 LY reads as 0 but for the first dots: at double speed as 153 on
/// the first cycle, at single speed on the first cycles where the revision has
/// it.
pub proof fn law_line_153_reads_as_0(s: PpuView, m: Mmio, cc: int)
    requires
        !s.disabled,
        s.lcdc.reg & 0x80 != 0,
        no_halt(m),
        plain_speed(s),
        s.clk.internal_ly_val == 153,
        ly_read_left(s, m, cc) > 0,
    ensures
        ly_read_left(s, m, cc) <= in_cycles(454, m.double_speed) ==> s.ly_reg_at_cc(m, cc) == Some(
            0u8,
        ),
        s.ly_reg_at_cc(m, cc) matches Some(v) ==> v == 0 || v == 153,
{
    reveal(PpuView::ly_read_position);
    reveal(PpuView::ly_reg_last_line);
}

/// Away from the line's ends the LYC flag reads as whether LYC is the line.
pub proof fn law_lyc_flag_reads_the_match(s: PpuView, m: Mmio, cc: int)
    requires
        !s.disabled,
        s.lcdc.reg & 0x80 != 0,
        no_halt(m),
        s.clk.internal_ly_val < 153,
        0 <= cc < 0x0800_0000_0000_0000,
        in_cycles(16, m.double_speed) <= line_change(s, m.double_speed) - cc <= in_cycles(
            456,
            m.double_speed,
        ),
    ensures
        s.lyc_flag_at_cc(m, cc) == Some(m.lyc == s.clk.internal_ly_val),
{
}

/// While a line is drawn the CPU cannot reach video memory or OAM; the lock on
/// the line's end follows the end of mode 3.
pub proof fn law_drawing_locks_memory(
    s: PpuView,
    kind: u8,
    is_read: bool,
    locked: bool,
    env: AccessEnv,
    cc: int,
)
    requires
        !s.disabled,
        s.clk.internal_ly_val <= 143,
        s.state == State::PixelTransfer,
        s.clk.display_enable_inactive_until <= cc,
        s.m0.m0_time_master is Some,
        s.m0.cgbp_block_start_cc is Some,
        s.m0.cgbp_block_start_cc->0 <= cc,
        !s.clk.first_line_after_enable,
        !env.halt_woken,
        kind <= 1,
        kind == 1 ==> s.oam_line_cycle(is_read, cc, env.double_speed) + 5 < 456
            && s.oam_line_cycle(is_read, cc, env.double_speed) != 76,
    ensures
        ({
            let end = s.m0.m0_time_master->0;
            let hold = if kind == 1 && is_read && env.cgb_de { 1int } else { 0 };
            s.cpu_access_blocked(kind, is_read, locked, env, cc) == Some(cc + 3 - hold < end)
        }),
{
}

/// Once drawing is over and the next scan is not near, memory is free.
pub proof fn law_horizontal_blank_frees_memory(
    s: PpuView,
    kind: u8,
    is_read: bool,
    locked: bool,
    env: AccessEnv,
    cc: int,
)
    requires
        !s.disabled,
        s.clk.internal_ly_val <= 143,
        s.state == State::HBlank,
        s.m0.m0_time_master is Some,
        cc >= s.m0.m0_time_master->0 + 1,
        kind <= 2,
        s.m0.cgbp_block_start_cc is Some,
        kind == 1 ==> s.oam_line_cycle(is_read, cc, env.double_speed) + 10 < 456,
    ensures
        s.cpu_access_blocked(kind, is_read, locked, env, cc) == Some(false),
{
}

/// During the scan OAM is locked, and video memory is not until it nears its
/// end.
pub proof fn law_scan_locks_oam_alone(
    s: PpuView,
    is_read: bool,
    env: AccessEnv,
    cc: int,
)
    requires
        !s.disabled,
        s.clk.internal_ly_val <= 143,
        s.state == State::OAMSearch,
        s.clk.display_enable_inactive_until <= cc,
        s.m0.cgbp_block_start_cc is Some,
    ensures
        cc + 10 < s.m0.cgbp_block_start_cc->0 ==> s.cpu_access_blocked(0, is_read, false, env, cc)
            == Some(false) && s.cpu_access_blocked(2, is_read, false, env, cc) == Some(false),
        cc >= s.m0.cgbp_block_start_cc->0 ==> s.cpu_access_blocked(2, is_read, false, env, cc)
            == Some(true),
{
}

/// The palette lock ends two cycles after mode 3.
pub proof fn law_palette_lock_ends_with_mode_3(
    s: PpuView,
    is_read: bool,
    locked: bool,
    env: AccessEnv,
    cc: int,
)
    requires
        !s.disabled,
        s.clk.internal_ly_val <= 143,
        s.state != State::OAMSearch,
        s.clk.display_enable_inactive_until <= cc,
        s.m0.m0_time_master is Some,
        s.m0.cgbp_block_start_cc is Some,
        s.m0.cgbp_block_start_cc->0 <= cc,
    ensures
        s.cpu_access_blocked(2, is_read, locked, env, cc) == Some(
            cc < s.m0.m0_time_master->0 + 1,
        ),
{
}

/// The windows of the horizontal blank DMA, in cycles after the end of mode 3.
pub proof fn law_dma_windows(s: PpuView, cc: int, ds: bool)
    requires
        !s.disabled,
        s.clk.internal_ly_val <= 143,
        s.m0.m0_time_master is Some,
    ensures
        ({
            let since = cc - s.m0.m0_time_master->0;
            &&& s.hdma_period_unhalt(cc, ds) == Some(
                0 <= since && since < if ds { 400int } else { 198 },
            )
            &&& s.hdma_period_halt(cc, ds) == Some(
                0 <= since && since < if ds { 410int } else { 208 },
            )
            &&& s.hdma_period_kick(cc, ds) == Some(
                0 <= since && since < (if ds { 395int } else { 192 }) && s.m0.m0_time_master->0
                    >= line_change(s, ds) + (if s.speed.lytime_no_plus1 { 0int } else { 1 })
                    - in_cycles(456, ds),
            )
        }),
{
}

/// Switching the DMA off comes too late from six cycles before the end of mode 3
/// on, four at double speed; where switching it on starts a block at once it
/// always does.
pub proof fn law_dma_cannot_be_stopped_late(s: PpuView, cc: int, ds: bool)
    requires
        !s.disabled,
        s.clk.internal_ly_val <= 143,
        s.m0.m0_time_master is Some,
    ensures
        ({
            let end = s.m0.m0_time_master->0;
            let began = line_change(s, ds) + (if s.speed.lytime_no_plus1 { 0int } else { 1 })
                - in_cycles(456, ds);
            &&& s.dma_disable_fires(cc, ds) == Some(
                end >= began && cc + (if ds { 4int } else { 6 }) >= end,
            )
            &&& s.hdma_period_kick(cc, ds) == Some(true) ==> s.dma_disable_fires(cc, ds) == Some(
                true,
            )
            &&& s.dma_edge(ds) == Some(end - if ds { 4int } else { 6 })
        }),
{
}

/// By dots: the window is open after the end of mode 3 and until three dots
/// before the line's end, six at double speed. A fine scroll of one opens it a
/// dot early.
pub proof fn law_dma_window_by_dots(s: PpuView, ds: bool)
    requires
        !s.disabled,
        s.clk.internal_ly_val <= 143,
        s.m0.scheduled_mode0_dot is Some,
    ensures
        ({
            let end = s.m0.scheduled_mode0_dot->0;
            let early = if s.m3.m3_arm_scx % 8 == 1 { 1int } else { 0 };
            s.hdma_period(ds) == Some(
                s.ticks > end - early && s.ticks < if ds { 450int } else { 453 },
            )
        }),
{
    let scx = s.m3.m3_arm_scx;
    assert(scx & 0x07 == scx % 8) by (bit_vector);
}

/// Video memory can be read until drawing nears and again from its end on.
pub proof fn law_video_memory_reads(s: PpuView, cc: int, is_cgb: bool, ds: bool)
    requires
        !s.disabled,
        s.clk.internal_ly_val <= 143,
        s.m0.m0_time_master is Some,
    ensures
        cc + 2 >= s.m0.m0_time_master->0 ==> s.vram_readable_at_cc(cc, is_cgb, ds) == Some(true),
        cc + 2 < s.m0.m0_time_master->0 && s.line_cycles_at(cc, ds) >= 79
            ==> s.vram_readable_at_cc(cc, is_cgb, ds) == Some(false),
        s.line_cycles_at(cc, ds) < 75 ==> s.vram_readable_at_cc(cc, is_cgb, ds) == Some(true),
{
}

/// Leaving HALT, the window can be moved at its end, and opens a cycle early for a
/// DMA that runs ahead of an interrupt's pushes.
pub proof fn law_dma_windows_out_of_halt(s: PpuView, cc: int, ds: bool, adj: int)
    requires
        !s.disabled,
        s.clk.internal_ly_val <= 143,
        s.m0.m0_time_master is Some,
    ensures
        ({
            let since = cc - s.m0.m0_time_master->0;
            let end = if ds { 400int } else { 198 };
            &&& s.hdma_period_unhalt_by(cc, ds, adj) == Some(0 <= since && since < end + adj)
            &&& s.hdma_period_unhalt_by(cc, ds, 0) == s.hdma_period_unhalt(cc, ds)
            &&& s.hdma_before_pushes(cc, ds) == Some(-1 <= since && since < end)
        }),
{
}

} // verus!
