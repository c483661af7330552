//! The edges of the memory locks and of vertical blank, dot by dot.

use vstd::prelude::*;

use crate::irq_laws::in_cycles;
use crate::mmio::Mmio;
use crate::read_laws::{at_dot, line_change, no_halt, settled};
use crate::reads::AccessEnv;
use crate::state::{PpuView, State};

verus! {

/// The line's dot that an OAM access falls on: by the clock for a read, by the
/// renderer's own count for a write.
pub open spec fn oam_dot(s: PpuView, is_read: bool, env: AccessEnv, cc: int, dot: int) -> bool {
    let moved = if s.speed.lytime_no_plus1 { 1int } else { 0 };
    if is_read {
        let left = line_change(s, env.double_speed) + 1 - moved - cc;
        in_cycles(456 - dot, env.double_speed) <= left < in_cycles(457 - dot, env.double_speed)
    } else {
        dot == s.clk.line_cycle - moved
    }
}

/// The first dot of a line's end on which OAM is already locked for a read: four
/// dots before the end, three at double speed on early revisions.
pub open spec fn read_lock_dot(env: AccessEnv) -> int {
    if env.double_speed && !env.cgb_de { 453 } else { 452 }
}

/// In vertical blank OAM is locked in the last dots before line 0 and at no other
/// time, and nothing else is. A write finds the lock three dots before the end,
/// four on CGB.
pub proof fn law_vertical_blank_locks_oam_at_its_end(
    s: PpuView,
    kind: u8,
    is_read: bool,
    locked: bool,
    env: AccessEnv,
    cc: int,
    dot: int,
)
    requires
        !s.disabled,
        144 <= s.clk.internal_ly_val <= 153,
        !env.halt_woken,
        oam_dot(s, is_read, env, cc, dot),
    ensures
        ({
            let from = if is_read {
                read_lock_dot(env)
            } else if env.is_cgb {
                452
            } else {
                453
            };
            s.cpu_access_blocked(kind, is_read, locked, env, cc) == Some(
                kind == 1 && s.clk.internal_ly_val == 153 && dot >= from,
            )
        }),
{
}

/// After drawing, OAM is locked again in the last dots of lines 0 to 142, for the
/// scan to come; line 143 has none. A write finds it three dots before the end,
/// five on CGB.
pub proof fn law_line_end_locks_oam(
    s: PpuView,
    is_read: bool,
    locked: bool,
    env: AccessEnv,
    cc: int,
    dot: int,
)
    requires
        !s.disabled,
        s.clk.internal_ly_val <= 143,
        s.state == State::HBlank,
        s.clk.display_enable_inactive_until <= cc,
        s.m0.m0_time_master is Some,
        cc >= s.m0.m0_time_master->0,
        !env.halt_woken,
        oam_dot(s, is_read, env, cc, dot),
    ensures
        ({
            let from = if is_read {
                read_lock_dot(env)
            } else if env.is_cgb {
                451
            } else {
                453
            };
            s.cpu_access_blocked(1, is_read, locked, env, cc) == Some(
                dot >= from && s.clk.internal_ly_val < 143,
            )
        }),
{
}

/// During the scan video memory is locked as drawing nears: a DMG read four dots
/// before it, any other access one dot before it. Right after switching on it is
/// not.
pub proof fn law_scan_end_locks_video_memory(
    s: PpuView,
    is_read: bool,
    locked: bool,
    env: AccessEnv,
    cc: int,
)
    requires
        !s.disabled,
        s.clk.internal_ly_val <= 143,
        s.state == State::OAMSearch,
        s.ticks <= 80,
        cc >= 0,
        !s.speed.lytime_no_plus1,
        s.m0.cgbp_block_start_cc is Some,
    ensures
        ({
            let grace = cc + 2 - (if env.is_cgb { 1int } else { 0 }) + (if env.double_speed {
                1int
            } else {
                0
            }) < s.clk.display_enable_inactive_until;
            let lead = if is_read && !env.is_cgb { 4int } else { 1 };
            s.cpu_access_blocked(0, is_read, locked, env, cc) == Some(
                !grace && cc + 1 >= s.m0.cgbp_block_start_cc->0 - in_cycles(
                    lead,
                    env.double_speed,
                ),
            )
        }),
{
}

/// The cycles by which the first scan after switching on locks OAM early.
pub open spec fn grace_lead(is_read: bool, env: AccessEnv) -> int {
    if !is_read && env.double_speed { 6 } else { 5 }
}

/// Palette memory is locked from the start of drawing on, a cycle early; OAM is
/// not right after switching on.
pub proof fn law_palette_lock_begins_with_drawing(
    s: PpuView,
    is_read: bool,
    locked: bool,
    env: AccessEnv,
    cc: int,
)
    requires
        !s.disabled,
        s.clk.internal_ly_val <= 143,
        s.state == State::OAMSearch,
        !s.speed.lytime_no_plus1,
        s.m0.cgbp_block_start_cc is Some,
        cc >= 0,
    ensures
        s.cpu_access_blocked(2, is_read, locked, env, cc) == Some(
            cc + 1 >= s.clk.display_enable_inactive_until && cc + 1
                >= s.m0.cgbp_block_start_cc->0,
        ),
        cc + grace_lead(is_read, env) < s.clk.display_enable_inactive_until ==> s.cpu_access_blocked(
            1,
            is_read,
            locked,
            env,
            cc,
        ) == Some(false),
{
}

/// During a scan that is not the first after switching on OAM is locked once the
/// line's drawing is known: the lock on the line before never ended.
pub proof fn law_scan_locks_oam(s: PpuView, is_read: bool, env: AccessEnv, cc: int, dot: int)
    requires
        !s.disabled,
        s.clk.internal_ly_val <= 143,
        s.state == State::OAMSearch,
        s.clk.display_enable_inactive_until <= cc + grace_lead(is_read, env),
        s.m0.m0_time_master is Some,
        !env.halt_woken,
        oam_dot(s, is_read, env, cc, dot),
        0 <= dot < 450,
        dot != 76 || is_read || env.is_cgb,
    ensures
        s.cpu_access_blocked(1, is_read, true, env, cc) == Some(true),
{
}

/// On a DMG one write gets through: on dot 76.
pub proof fn law_dmg_write_gets_through(s: PpuView, locked: bool, env: AccessEnv, cc: int)
    requires
        !s.disabled,
        s.clk.internal_ly_val <= 143,
        !env.is_cgb,
        !env.halt_woken,
        s.m0.m0_time_master is Some,
        oam_dot(s, false, env, cc, 76),
    ensures
        s.cpu_access_blocked(1, false, locked, env, cc) == Some(false),
{
}

/// STAT shows mode 1 from two dots before the end of line 143 on, three on late
/// revisions.
pub proof fn law_mode_1_shows_early(s: PpuView, m: Mmio, cc: int, dot: int)
    requires
        settled(s, cc),
        no_halt(m),
        s.clk.internal_ly_val == 143,
        s.state != State::PixelTransfer,
        cc >= 1,
        453 <= dot <= 456,
        at_dot(s, m, cc, dot),
    ensures
        ({
            let late = m.cgb_de || m.agb_curve is Some;
            s.stat_mode(m, cc) == Some(if dot >= (if late { 453int } else { 454 }) { 1u8 } else { 0 })
        }),
{
    let back = if m.double_speed { cc - 1 } else { cc };
    assert(s.stat_read_cc(m, cc) == back);
    if m.double_speed {
        assert((s.next_line_master(true) - back) / 2 == 456 - dot);
    }
}

/// At the end of vertical blank STAT shows mode 0 for a dot at single speed, not
/// on late revisions, and then mode 2 for three.
pub proof fn law_mode_1_ends(s: PpuView, m: Mmio, cc: int, dot: int)
    requires
        settled(s, cc),
        no_halt(m),
        s.clk.internal_ly_val == 153,
        s.state != State::PixelTransfer,
        cc >= 1,
        450 <= dot <= 456,
        at_dot(s, m, cc, dot),
    ensures
        ({
            let late = m.cgb_de || m.agb_curve is Some;
            s.stat_mode(m, cc) == Some(
                if dot >= 453 {
                    2u8
                } else if dot == 452 && !m.double_speed && !late {
                    0
                } else {
                    1
                },
            )
        }),
{
    let back = if m.double_speed { cc - 1 } else { cc };
    assert(s.stat_read_cc(m, cc) == back);
    if m.double_speed {
        assert((s.next_line_master(true) - back) / 2 == 456 - dot);
    }
}

/// LY reads on line 153: the line's number at its very start, and 0 from then on,
/// as the machine has it.
pub proof fn law_line_153_reads(s: PpuView, m: Mmio, cc: int)
    requires
        !s.disabled,
        s.lcdc.reg & 0x80 != 0,
        no_halt(m),
        crate::read_laws::plain_speed(s),
        s.clk.internal_ly_val == 153,
        crate::read_laws::ly_read_left(s, m, cc) > 0,
    ensures
        ({
            let left = crate::read_laws::ly_read_left(s, m, cc);
            let early = (if m.agb_curve is Some { 1int } else { 0 }) + (if m.cgb_de {
                1int
            } else {
                0
            });
            s.ly_reg_at_cc(m, cc) == if m.double_speed {
                Some(if left <= 910 { 0u8 } else { 153 })
            } else if left <= 457 - early {
                Some(0u8)
            } else if m.cgb_de {
                Some(153u8)
            } else {
                None
            }
        }),
{
    reveal(PpuView::ly_read_position);
    reveal(PpuView::ly_reg_last_line);
}

/// The LYC flag reads as the match with the line to come from two dots before the
/// line on, and as no match in between.
pub proof fn law_lyc_flag_turns_with_the_line(s: PpuView, m: Mmio, cc: int)
    requires
        !s.disabled,
        s.lcdc.reg & 0x80 != 0,
        no_halt(m),
        s.clk.internal_ly_val < 152,
        !m.double_speed,
        !m.cgb_de,
        m.agb_curve is None,
        !m.cgb_hardware,
        10 <= cc < 0x0800_0000_0000_0000,
        0 <= line_change(s, false) - cc <= 456,
    ensures
        ({
            let left = line_change(s, false) - cc;
            s.lyc_flag_at_cc(m, cc) == Some(
                if left <= 2 {
                    m.lyc == s.clk.internal_ly_val + 1
                } else if left <= 4 {
                    false
                } else {
                    m.lyc == s.clk.internal_ly_val
                },
            )
        }),
{
}

/// On the line after switching on STAT shows mode 0 up to dot 79 of the scan,
/// and mode 3 until its end from there on.
pub proof fn law_first_line_reads(s: PpuView, m: Mmio, cc: int, dot: int)
    requires
        settled(s, cc),
        no_halt(m),
        !m.double_speed,
        !s.speed.lytime_no_plus1,
        s.clk.internal_ly_val <= 143,
        s.state == State::OAMSearch,
        s.clk.first_line_after_enable,
        s.m0.m0_time_master is Some,
        cc >= 1,
        77 <= dot < 100,
        at_dot(s, m, cc, dot),
    ensures
        s.stat_mode(m, cc) == Some(
            if dot < 79 {
                0u8
            } else if cc + 3 < s.m0.m0_time_master->0 {
                3
            } else {
                0
            },
        ),
{
}

/// In the four dots before the last three of a line STAT still shows mode 0, once
/// mode 3 has ended; on line 143 too.
pub proof fn law_line_reads_as_mode_0_to_its_end(s: PpuView, m: Mmio, cc: int, dot: int)
    requires
        settled(s, cc),
        no_halt(m),
        s.clk.internal_ly_val <= 143,
        s.state == State::HBlank,
        s.m0.m0_time_master is Some,
        cc > s.m0.m0_time_master->0,
        !s.speed.lytime_no_plus1,
        cc >= 1,
        449 <= dot < 453,
        at_dot(s, m, cc, dot),
    ensures
        s.stat_mode(m, cc) == Some(0u8),
{
    let back = if m.double_speed { cc - 1 } else { cc };
    assert(s.stat_read_cc(m, cc) == back);
    if m.double_speed {
        assert((s.next_line_master(true) - back) / 2 == 456 - dot);
    }
}

/// A read out of a HALT that the end of mode 3 or a scan ended finds the next scan
/// early: on dot 449 in CGB mode at single speed, else on dot 451.
pub proof fn law_halt_finds_the_next_scan_early(s: PpuView, m: Mmio, cc: int, dot: int)
    requires
        settled(s, cc),
        m.halt.skew,
        m.halt.m0m2,
        !m.halt.vblank,
        s.clk.internal_ly_val <= 142,
        s.state == State::HBlank,
        cc >= 1,
        (if m.cgb_features && !m.double_speed { 449int } else { 451 }) <= dot < 453,
        at_dot(s, m, cc, dot),
    ensures
        s.stat_mode(m, cc) == Some(2u8),
{
    let back = if m.double_speed { cc - 1 } else { cc };
    assert(s.stat_read_cc(m, cc) == back);
    if m.double_speed {
        assert((s.next_line_master(true) - back) / 2 == 456 - dot);
    }
}

/// Video memory reads until dot 76 of a line, 79 on CGB, a dot earlier at double
/// speed, and again from two cycles before the end of mode 3 on.
pub proof fn law_video_memory_reads_by_dots(
    s: PpuView,
    cc: int,
    is_cgb: bool,
    ds: bool,
    dot: int,
)
    requires
        !s.disabled,
        s.clk.internal_ly_val <= 143,
        s.m0.m0_time_master is Some,
        oam_dot(
            s,
            true,
            AccessEnv { is_cgb, cgb_de: false, double_speed: ds, halt_woken: false },
            cc,
            dot,
        ),
    ensures
        s.vram_readable_at_cc(cc, is_cgb, ds) == Some(
            dot < (if is_cgb { 79int } else { 76 }) - (if ds { 1int } else { 0 }) || cc + 2
                >= s.m0.m0_time_master->0,
        ),
{
}

} // verus!
