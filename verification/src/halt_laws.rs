//! Reads right after a HALT or a speed switch.

use vstd::prelude::*;

use crate::access_laws::{oam_dot, read_lock_dot};
use crate::mmio::Mmio;
use crate::read_laws::{at_dot, looks_ahead, ly_read_left, settled};
use crate::reads::AccessEnv;
use crate::state::{PpuView, State};

verus! {

/// The cycles by which a HALT that has just ended moves a read of LY forward:
/// five out of CGB mode's own exits at single speed, or those noted for DMG mode
/// on CGB hardware, else one; and one more out of vertical blank.
pub open spec fn ly_read_moves(m: Mmio) -> int {
    let h = m.halt;
    (if !h.skew {
        0int
    } else if m.cgb_hardware && !m.cgb_features && !m.double_speed && !h.hdma
        && h.cgb_m0_ly_advance is Some {
        h.cgb_m0_ly_advance->0 as int
    } else if !h.hdma && m.cgb_features && !m.double_speed && !h.m2_stall_charged_cgb {
        5
    } else if !h.hdma && m.double_speed && h.ssds_ly_advance {
        5
    } else {
        1
    }) + (if (h.grid_cgb || h.skew) && m.cgb_features && h.vblank { 1int } else { 0 })
}

/// LY turns that much earlier for such a read.
pub proof fn law_halt_moves_ly_reads(s: PpuView, m: Mmio, cc: int)
    requires
        !s.disabled,
        s.lcdc.reg & 0x80 != 0,
        !s.speed.ssds_mode3_ly_advance,
        s.speed.dsss_ly_total_count == 0,
        s.clk.internal_ly_val < 153,
        ly_read_left(s, m, cc) > 0,
    ensures
        ({
            let left = ly_read_left(s, m, cc) - ly_read_moves(m);
            let turn = if m.double_speed { 10int } else { 6 };
            let ly = s.clk.internal_ly_val;
            let next = (ly + 1) as u8;
            s.ly_reg_at_cc(m, cc) == if left > turn {
                None
            } else if left == turn {
                Some(ly & next)
            } else {
                Some(next)
            }
        }),
{
    reveal(PpuView::ly_read_position);
    reveal(PpuView::ly_read_to_next);
}

/// A switch back from double speed moves the turn of LY by the cycles it left
/// over: none, one or two later, in fives of fifteen.
pub proof fn law_speed_switch_moves_ly_reads(s: PpuView, m: Mmio, cc: int)
    requires
        !s.disabled,
        s.lcdc.reg & 0x80 != 0,
        !s.speed.ssds_mode3_ly_advance,
        s.speed.dsss_ly_total_count > 0,
        !m.halt.skew,
        !m.halt.grid_cgb,
        !m.cgb_de,
        s.clk.internal_ly_val < 153,
        ly_read_left(s, m, cc) > 0,
    ensures
        ({
            let over = (s.speed.render_carry_skew_cc + 2) % 15;
            let later = if over < 5 {
                0int
            } else if over < 10 {
                1
            } else {
                2
            };
            let left = ly_read_left(s, m, cc) + later;
            let turn = if m.double_speed { 10int } else { 6 };
            let ly = s.clk.internal_ly_val;
            let next = (ly + 1) as u8;
            s.ly_reg_at_cc(m, cc) == if left > turn {
                None
            } else if left == turn {
                Some(ly & next)
            } else {
                Some(next)
            }
        }),
{
    reveal(PpuView::ly_read_position);
    reveal(PpuView::ly_read_to_next);
    reveal(PpuView::line_end_shift);
}

/// A switch to double speed in mode 3 has LY turn seven cycles early, four cycles
/// before the change of line.
pub proof fn law_mode_3_switch_moves_ly_reads(s: PpuView, m: Mmio, cc: int)
    requires
        !s.disabled,
        s.lcdc.reg & 0x80 != 0,
        s.speed.ssds_mode3_ly_advance,
        m.double_speed,
        !m.halt.skew,
        !m.halt.grid_cgb,
        s.clk.internal_ly_val < 153,
        ly_read_left(s, m, cc) > 7,
    ensures
        ({
            let left = ly_read_left(s, m, cc) - 7;
            let ly = s.clk.internal_ly_val;
            let next = (ly + 1) as u8;
            s.ly_reg_at_cc(m, cc) == if left > 4 {
                None
            } else if left == 4 {
                Some(ly & next)
            } else {
                Some(next)
            }
        }),
{
    reveal(PpuView::ly_read_position);
    reveal(PpuView::ly_read_to_next);
}

/// In CGB mode at single speed a scan's STAT read after a HALT looks five cycles
/// ahead, or one where the HALT has been charged for them.
pub proof fn law_halt_moves_scan_reads(s: PpuView, m: Mmio, cc: int, dot: int)
    requires
        settled(s, cc),
        m.halt.skew,
        !m.halt.hdma,
        !m.halt.vblank,
        !m.halt.m0m2,
        m.cgb_features,
        !m.double_speed,
        s.clk.internal_ly_val <= 143,
        s.state == State::OAMSearch,
        cc >= 1,
        0 <= dot < 77,
        at_dot(s, m, cc + if m.halt.m2_stall_charged_cgb { 1int } else { 5 }, dot),
    ensures
        s.stat_mode(m, cc) == Some(2u8),
{
}

/// On late revisions a HALT that did not end in vertical blank moves the end of
/// mode 3 for STAT reads: a cycle earlier at single speed, two later at double
/// speed. One that did end there makes every STAT read a cycle late.
pub proof fn law_halt_moves_mode_3_reads(s: PpuView, m: Mmio, cc: int)
    requires
        !s.disabled,
        s.lcdc.reg & 0x80 != 0,
        m.halt.skew || m.halt.grid_cgb,
        m.cgb_features,
        s.clk.internal_ly_val <= 143,
        s.state == State::PixelTransfer,
        s.m0.m0_time_master is Some,
    ensures
        ({
            let late = m.cgb_de || m.agb_curve is Some;
            let more = if m.halt.vblank {
                1int
            } else if !late {
                0
            } else if m.double_speed {
                -2
            } else {
                1
            };
            s.stat_mode(m, cc) == Some(
                if cc + looks_ahead(s, m) + more < s.m0.m0_time_master->0 { 3u8 } else { 0 },
            )
        }),
{
}

/// An OAM read after a HALT finds the lock of drawing gone four cycles early, and
/// that of the next scan there five dots early.
pub proof fn law_halt_moves_oam_reads(s: PpuView, locked: bool, env: AccessEnv, cc: int, dot: int)
    requires
        !s.disabled,
        s.clk.internal_ly_val < 143,
        s.state == State::HBlank || s.state == State::PixelTransfer,
        s.clk.display_enable_inactive_until <= cc,
        s.m0.m0_time_master is Some,
        s.m0.cgbp_block_start_cc is Some,
        s.m0.cgbp_block_start_cc->0 <= cc,
        env.halt_woken,
        oam_dot(s, true, env, cc, dot),
    ensures
        ({
            let ahead = if env.cgb_de { 6int } else { 7 };
            s.cpu_access_blocked(1, true, locked, env, cc) == Some(
                dot + 5 >= read_lock_dot(env) || cc + ahead < s.m0.m0_time_master->0,
            )
        }),
{
}

} // verus!
