//! What becomes of a finished frame, and of the picture when the LCD is switched.

use vstd::prelude::*;

use crate::irq_laws::{in_cycles, law_stat_fields};
use crate::mmio::Mmio;
use crate::sgb::MaskMode;
use crate::sgb_picture::FrameView;
use crate::state::{PpuView, State};

verus! {

/// A frame's end hands the drawn picture over and starts a blank one: RGB on CGB
/// hardware, shades elsewhere. The first frame after switching on is passed over
/// where the panel still holds its picture.
pub proof fn law_frame_end_hands_the_picture_over(s: PpuView, m: Mmio, i: int)
    requires
        s.wf(),
        m.cgb_features ==> m.cgb_hardware,
        0 <= i,
    ensures
        ({
            let r = s.end_frame(m).0;
            let skipped = s.out.frames_since_enable == 0 && s.out.repeat_skip_pending;
            &&& r.out.have_frame
            &&& !skipped && m.cgb_hardware ==> r.frames.color_fb_b == s.frames.color_fb_a
                && r.frames.fb_b == s.frames.fb_b
            &&& !skipped && !m.cgb_hardware ==> r.frames.fb_b == s.frames.fb_a
                && r.frames.color_fb_b == s.frames.color_fb_b
            &&& skipped ==> r.frames.color_fb_b == s.frames.color_fb_b && r.frames.fb_b
                == s.frames.fb_b
            &&& (skipped || m.cgb_hardware) && i < 69120 ==> r.frames.color_fb_a[i] == 0
            &&& !skipped && !m.cgb_hardware && i < 23040 ==> r.frames.fb_a[i] == 0
            &&& r.out.frames_since_enable == if skipped {
                2
            } else if s.out.frames_since_enable < 255 {
                s.out.frames_since_enable + 1
            } else {
                255
            }
            &&& r.out.panel_holds_image == (skipped || s.out.frames_since_enable >= 1)
            &&& !r.out.repeat_skip_pending
        }),
{
    reveal(PpuView::enter_scheduled_mode2);
    reveal(PpuView::finished_frames);
    reveal(PpuView::finished_out);
}

/// The panel was driven so lately that it still shows its picture: within the
/// 144 lines of a picture and 1820 dots, on the AGB 2991.
pub open spec fn still_shows(s: PpuView, m: Mmio) -> bool {
    let since = m.master_cc - s.out.last_drive_cc;
    s.out.panel_holds_image && since <= in_cycles(
        if m.agb_curve is Some { 68655 } else { 67484 },
        m.double_speed,
    )
}

/// On CGB hardware the picture taken is the last finished one. With the LCD off,
/// and for two frames after it was switched on, it is white, unless the panel
/// still shows its picture.
pub proof fn law_colour_picture_taken(s: PpuView, m: Mmio, i: int)
    requires
        m.cgb_hardware,
        m.sgb is None,
        s.out.last_drive_cc <= m.master_cc,
        0 <= i < 69120,
    ensures
        ({
            let (r, f) = s.get_frame(m);
            let dark = s.disabled || s.out.frames_since_enable < 2;
            &&& !r.out.have_frame
            &&& r.frames == s.frames
            &&& f matches FrameView::Color(v) && (if dark && !still_shows(s, m) {
                v.len() == 69120 && v[i] == 255
            } else {
                v == s.frames.color_fb_b
            })
        }),
{
}

/// Elsewhere the picture is in shades, and shade 0 everywhere while the LCD is
/// off or new.
pub proof fn law_shade_picture_taken(s: PpuView, m: Mmio, i: int)
    requires
        !m.cgb_hardware,
        !m.cgb_features,
        m.sgb is None,
        0 <= i < 23040,
    ensures
        ({
            let (r, f) = s.get_frame(m);
            let dark = s.disabled || s.out.frames_since_enable < 2;
            &&& !r.out.have_frame
            &&& f matches FrameView::Monochrome(v) && v == s.presented_shades(m) && (if dark {
                v.len() == 23040 && v[i] == 0
            } else {
                v == s.frames.fb_b
            })
        }),
{
}

/// A Super Game Boy that freezes its screen shows the picture that was finished
/// when it first froze, and lets go of it when it thaws.
pub proof fn law_super_game_boy_picture_taken(s: PpuView, m: Mmio)
    requires
        s.wf(),
        !m.cgb_hardware,
        !m.cgb_features,
        m.sgb is Some,
        m.sgb->0.mask == MaskMode::Freeze || m.sgb->0.mask == MaskMode::Cancel,
        !m.sgb->0.colorized,
        s.frames.sgb_freeze_fb matches Some(f) ==> f.len() == 23040,
    ensures
        ({
            let (r, f) = s.get_frame(m);
            let frozen = m.sgb->0.mask == MaskMode::Freeze;
            &&& !r.out.have_frame
            &&& f matches FrameView::Monochrome(v) && v == if frozen
                && s.frames.sgb_freeze_fb is Some {
                s.frames.sgb_freeze_fb->0
            } else {
                s.frames.fb_b
            }
            &&& frozen ==> r.frames.sgb_freeze_fb == Some(f->Monochrome_0)
            &&& !frozen ==> r.frames.sgb_freeze_fb is None
        }),
{
}

/// STOP lets the panel fade: to black on CGB hardware, unless pixels were being
/// put out, to shade 0 elsewhere. With the LCD off nothing happens.
pub proof fn law_stop_fades_the_panel(s: PpuView, m: Mmio, i: int)
    requires
        m.cgb_features ==> m.cgb_hardware,
        0 <= i,
    ensures
        ({
            let r = s.stop_mode_panel(m);
            let on = !s.disabled && s.lcdc.reg & 0x80 != 0;
            &&& !on ==> r == s
            &&& on && m.cgb_hardware && s.state == State::PixelTransfer ==> r == s
            &&& on && m.cgb_hardware && s.state != State::PixelTransfer && i
                < s.frames.color_fb_b.len() ==> r.frames.color_fb_b[i] == 0
            &&& on && !m.cgb_hardware && i < s.frames.fb_b.len() ==> r.frames.fb_b[i] == 0
            &&& m.cgb_hardware ==> r.frames.fb_b == s.frames.fb_b
            &&& !m.cgb_hardware ==> r.frames.color_fb_b == s.frames.color_fb_b
            &&& r.frames.fb_a == s.frames.fb_a
            &&& r.frames.color_fb_a == s.frames.color_fb_a
        }),
{
}

/// The scan is on one of OAM's twenty rows of eight bytes, four dots on each, and
/// runs a row ahead.
pub proof fn law_scan_row(s: PpuView)
    ensures
        s.oam_bug_mode2_row() matches Some(row) ==> !s.disabled && s.lcdc.reg & 0x80 != 0 && s.state
            == State::OAMSearch && 1 <= row <= 19 && 4 * row <= s.clk.line_cycle + 4 < 4 * row + 4,
        s.oam_bug_mode2_row() is None ==> s.disabled || s.lcdc.reg & 0x80 == 0 || s.state
            != State::OAMSearch || s.clk.line_cycle >= 76,
{
}

/// Vertical blank begins: the panel has been driven, unless this is the first
/// frame after switching on and the panel no longer shows its picture.
pub proof fn law_vertical_blank_drives_the_panel(s: PpuView, m: Mmio)
    requires
        m.cgb_features ==> m.cgb_hardware,
        s.out.last_drive_cc <= m.master_cc,
    ensures
        ({
            let r = s.enter_vblank(m).0;
            let held = m.cgb_hardware && still_shows(s, m);
            let first = s.out.frames_since_enable == 0;
            &&& r.out.repeat_skip_pending == if first { held } else { s.out.repeat_skip_pending }
            &&& r.out.last_drive_cc == if !first || held {
                m.master_cc
            } else {
                s.out.last_drive_cc
            }
        }),
{
    reveal(PpuView::enter_vblank);
}

/// Switching off shows line 0 and mode 0 at once, keeps the interrupt enables of
/// STAT and its LYC flag, and asks for no interrupt but on the AGB.
pub proof fn law_switching_off_shows_line_0(s: PpuView, m: Mmio)
    requires
        m.agb_curve is None,
    ensures
        ({
            let (r, n) = s.enter_lcd_disabled(m);
            &&& r.disabled
            &&& n.ly == 0
            &&& n.stat & 0x03 == 0
            &&& n.stat & 0xFC == m.stat & 0xFC
            &&& n.irq == m.irq
            &&& r.ticks == 0
            &&& r.x == 0
            &&& r.line.sprites.len() == 0
            &&& r.m0.m0_time_master is None
            &&& r.frames == s.frames
            &&& (r.win.win_y_pos + 1) % 256 == 0
            &&& !r.win.window_y_triggered
        }),
{
    reveal(PpuView::off_vblank);
    reveal(PpuView::reset_lcd_pipeline);
    law_stat_fields(m.stat, 0, false);
}

/// An AGB at single speed that is switched off within four cycles of vertical
/// blank, on line 143 or later, still asks for its interrupt, and for STAT's if
/// its source is enabled.
pub proof fn law_agb_switched_off_at_vertical_blank(s: PpuView, m: Mmio)
    requires
        m.agb_curve is Some,
    ensures
        ({
            let n = s.enter_lcd_disabled(m).1;
            let meets = !m.double_speed && s.clk.internal_ly_val >= 143 && s.clk.sched_m1irq
                <= s.clk.abs_cc + 4;
            &&& n.ly == 0
            &&& meets ==> n.irq & 0x01 != 0
            &&& !meets ==> n.irq == m.irq
        }),
{
    reveal(PpuView::off_vblank);
    let irq = m.irq;
    assert((irq | 0x01) & 0x01 != 0 && ((irq | 0x02) | 0x01) & 0x01 != 0) by (bit_vector);
}

/// Switching on starts line 0 with mode 0 in STAT. Memory and STAT stay as if
/// the LCD were off for 80 dots and a cycle. The LYC interrupt is asked for if
/// LYC is 0, its source is enabled and the LYC flag is clear; no other is.
pub proof fn law_switching_on_starts_line_0(s: PpuView, m: Mmio)
    requires
        m.master_cc < 0x1000_0000_0000_0000,
    ensures
        ({
            let (r, n) = s.enter_lcd_enabled(m);
            let asks = m.lyc == 0 && m.stat & 0x40 != 0 && m.stat & 0x04 == 0;
            &&& !r.disabled
            &&& r.state == State::OAMSearch
            &&& r.ticks == 0
            &&& r.clk.line_cycle == 0
            &&& r.clk.internal_ly_val == 0
            &&& r.clk.first_line_after_enable
            &&& r.clk.display_enable_inactive_until == m.master_cc + if m.double_speed {
                161int
            } else {
                81
            }
            &&& r.out.frames_since_enable == 0
            &&& r.latch.wy1 == m.wy && r.latch.wy2 == m.wy
            &&& r.latch.scx_delayed == m.scx && r.latch.scy_delayed == m.scy
            &&& n.ly == 0
            &&& n.stat & 0x03 == 0
            &&& n.stat & 0xFC == m.stat & 0xFC
            &&& asks ==> n.irq & 0x02 != 0 && n.irq & 0xFD == m.irq & 0xFD
            &&& !asks ==> n.irq == m.irq
        }),
{
    reveal(PpuView::enabled_clock);
    reveal(PpuView::reset_lcd_pipeline);
    law_stat_fields(m.stat, 0, false);
    let irq = m.irq;
    assert((irq | 0x02) & 0x02 != 0 && (irq | 0x02) & 0xFD == irq & 0xFD) by (bit_vector);
}

/// In vertical blank the panel is driven up to line 152, unless this is a first
/// frame that it does not show.
pub proof fn law_vertical_blank_lines_drive_the_panel(s: PpuView, m: Mmio)
    requires
        144 <= m.ly < 153,
    ensures
        ({
            let (r, n) = s.next_vblank_line(m);
            let shows = s.out.frames_since_enable != 0 || s.out.repeat_skip_pending;
            &&& n.ly == m.ly + 1
            &&& r.out.last_drive_cc == if m.ly < 152 && shows {
                m.master_cc
            } else {
                s.out.last_drive_cc
            }
        }),
{
    reveal(PpuView::next_vblank_line);
}

/// The line counter's lead after a speed switch in mode 3 lasts for two frames.
pub proof fn law_lead_lasts_two_frames(s: PpuView, m: Mmio, n: Mmio)
    requires
        s.speed.ssds_mode3_ly_advance,
        s.speed.ssds_mode3_frames == 0,
    ensures
        s.end_frame(m).0.speed.ssds_mode3_ly_advance,
        !s.end_frame(m).0.end_frame(n).0.speed.ssds_mode3_ly_advance,
{
    reveal(PpuView::enter_scheduled_mode2);
    reveal(PpuView::finished_speed);
}

/// On the last line's sixth dot LY shows 0, and the LYC flag whether LYC is 0.
pub proof fn law_last_line_compares_with_0(s: PpuView, m: Mmio)
    requires
        m.ly == 153,
        !s.clk.line_153_ly_zeroed,
        s.ticks == 6,
    ensures
        ({
            let (r, n) = s.zero_line_153(m);
            &&& n.ly == 0
            &&& (n.stat & 0x04 != 0) == (m.lyc == 0)
            &&& n.stat & 0xFB == m.stat & 0xFB
            &&& r.clk.line_153_ly_zeroed
        }),
{
    reveal(PpuView::zero_line_153);
    law_stat_fields(m.stat, 0, m.lyc == 0);
}

/// A coloured picture is handed out as it is while there is a Super Game Boy.
pub proof fn law_colour_picture_beside_a_super_game_boy(s: PpuView, m: Mmio)
    requires
        m.cgb_hardware,
        m.sgb is Some,
    ensures
        s.get_frame(m).1 == FrameView::Color(s.frames.color_fb_b),
{
}

/// A stray read meets the scan's row too, but for the first six dots of the line,
/// in which it meets the first row.
pub proof fn law_scan_row_of_a_read(s: PpuView)
    ensures
        s.oam_bug_mode2_row_read() is Some <==> s.oam_bug_mode2_row() is Some,
        s.oam_bug_mode2_row_read() matches Some(row) ==> if s.clk.line_cycle <= 5 {
            row == 0
        } else {
            4 * row <= s.clk.line_cycle + 4 < 4 * row + 4
        },
{
}

} // verus!
