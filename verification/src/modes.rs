//! The scan (mode 2), and the blanks between lines and frames.

use vstd::prelude::*;

use crate::arith::{imax, max_i64, to_dots_signed};
use crate::frames::{filled, FramesView};
use crate::history::{HistSeed, HistView};
use crate::journal::JournalView;
use crate::line_objs::LineObjsView;
use crate::mmio::{InterruptFlag, Mmio};
use crate::objects::{sort_sprites, SpriteFetchRec, SPRITE_TILE_NONE};
use crate::power::{stat_with_lyc, stat_with_mode};
use crate::regs::{
    at_least_zero, at_least_zero_spec, cycles_to_dots, dots_to_cycles, LCDCFlags,
    CGB_PIXEL_TRANSFER_ARM_DOT, CGB_PIXEL_TRANSFER_WARMUP, CLOCK_LIMIT, DISABLED_TIME,
    DMG_PIXEL_TRANSFER_ARM_DOT, DMG_PIXEL_TRANSFER_WARMUP,
};
use crate::state::{
    BusGlitch, Clk, EarlyBgp, FrameOut, Latch, Objs, Plot, Ppu, PpuView, SpeedPhase, State, WeHist,
    Win, M0, M3,
};

verus! {

/// The dots on which drawing starts, and mode 3 shows, on the line after the
/// LCD was switched on.
pub const DMG_FIRST_FRAME_ARM_DOT: u128 = 85;
pub const CGB_FIRST_FRAME_ARM_DOT: u128 = 84;
pub const DMG_FIRST_FRAME_LOCK_DOT: u128 = 80;
pub const CGB_FIRST_FRAME_LOCK_DOT: u128 = 82;
pub const CGB_FIRST_FRAME_LOCK_DOT_DS: u128 = 81;
/// The dot of a line's end on which STAT already shows the next scan.
pub const MODE2_STAT_PRETRIGGER_DOT: u128 = 452;
/// The dot on which LY turns 0 on the last line.
pub const LINE_153_LY_ZERO_DOT: u128 = 6;

#[verifier::allow_in_spec]
pub fn cgb_first_frame_lock_dot(double_speed: bool) -> u128
    returns
        (if double_speed { CGB_FIRST_FRAME_LOCK_DOT_DS } else { CGB_FIRST_FRAME_LOCK_DOT }),
{
    if double_speed { CGB_FIRST_FRAME_LOCK_DOT_DS } else { CGB_FIRST_FRAME_LOCK_DOT }
}

impl PpuView {
    /// The scan of a line that is drawn starts.
    #[verifier::opaque]
    pub open spec fn enter_scheduled_mode2(self, m: Mmio) -> (PpuView, Mmio) {
        (
            PpuView {
                objs: Objs {
                    scan_obj_size_large: self.lcdc_has(LCDCFlags::SpriteSize),
                    objsize_apply_cc: DISABLED_TIME,
                    ..self.objs
                },
                m0: M0 { cgbp_block_start_cc: Some(self.cgbp_begin_exact(m) as u64), ..self.m0 },
                ..self
            },
            Mmio {
                hdma_tracker_sleep: if m.cgb_features && !self.clk.first_line_after_enable {
                    m.master_cc.wrapping_add(dots_to_cycles(76, m.double_speed) as u64)
                } else {
                    m.hdma_tracker_sleep
                },
                stat: stat_with_mode(m.stat, 2),
                ..m
            },
        )
    }

    /// STAT shows the next scan a few dots before the line ends.
    pub open spec fn step_scheduled_stat_events(self, m: Mmio) -> Mmio {
        let ahead = match self.state {
            State::HBlank => m.ly < 143,
            State::VBlank => m.ly == 153 || self.clk.line_153_ly_zeroed,
            _ => false,
        };
        if !self.disabled && self.ticks == MODE2_STAT_PRETRIGGER_DOT + 1 && ahead && m.stat & 0x03
            != 2 {
            Mmio { stat: stat_with_mode(m.stat, 2), ..m }
        } else {
            m
        }
    }

    /// Dot 0 of a scan: nothing found, nothing started.
    #[verifier::opaque]
    pub open spec fn mode2_line_start(self) -> PpuView {
        if self.ticks == 0 {
            PpuView {
                win: Win {
                    window_started_this_line: false,
                    win_weoff_deferred_tail: false,
                    win_start_dot: None,
                    predicted_win_start_dot: None,
                    win_wx_penalty_resolved: false,
                    win_wx_enable_resolved: false,
                    ..self.win
                },
                line: LineObjsView { sprites: Seq::empty(), ..self.line },
                objs: Objs {
                    current_oam_sprite_index: 0,
                    next_sprite_fetch_index: 0,
                    sprite_fetch_stall: 0,
                    pixel_transfer_warmup: 0,
                    ..self.objs
                },
                ..self
            }
        } else {
            self
        }
    }

    /// The line after switching on has no scan; its end is known all along.
    #[verifier::opaque]
    pub open spec fn mode2_first_line(self, m: Mmio) -> (PpuView, Mmio) {
        let cgb = m.cgb_features;
        let lock = if cgb {
            cgb_first_frame_lock_dot(m.double_speed)
        } else {
            DMG_FIRST_FRAME_LOCK_DOT
        };
        if !self.clk.first_line_after_enable {
            (self, m)
        } else {
            (
                PpuView {
                    m0: M0 {
                        m0_time_master: Some(
                            self.m0_time_exact(m, self.m3_length(m, cgb), cgb, true) as u64,
                        ),
                        cgbp_block_start_cc: Some(self.cgbp_begin_exact(m) as u64),
                        ..self.m0
                    },
                    ..self
                },
                if self.ticks == lock && m.stat & 0x03 != 3 {
                    Mmio { stat: stat_with_mode(m.stat, 3), ..m }
                } else {
                    m
                },
            )
        }
    }

    /// Every other dot the scan looks at one object, with the height in force
    /// at that moment.
    #[verifier::opaque]
    pub open spec fn mode2_scan_slot(self, m: Mmio) -> PpuView {
        let i = self.objs.current_oam_sprite_index;
        if !self.clk.first_line_after_enable && self.ticks % 2 == 0 && i < 40 {
            let large = if self.objs.objsize_apply_cc != DISABLED_TIME {
                self.objsize_large_at_cc(self.clk.abs_cc)
            } else {
                self.objs.scan_obj_size_large
            };
            let s = PpuView {
                objs: Objs { scan_obj_size_large: large, ..self.objs },
                line: LineObjsView {
                    slot_large: self.line.slot_large.update(i as int, large),
                    ..self.line
                },
                ..self
            };
            let t = s.check_single_sprite(m, i as int);
            PpuView {
                objs: Objs {
                    current_oam_sprite_index: (i + 1) as usize,
                    scan_obj_size_large: self.lcdc_has(LCDCFlags::SpriteSize),
                    ..t.objs
                },
                ..t
            }
        } else {
            self
        }
    }

    /// The dot on which drawing starts.
    pub open spec fn arm_dot(self, m: Mmio) -> u128 {
        if self.clk.first_line_after_enable {
            if m.cgb_features { CGB_FIRST_FRAME_ARM_DOT } else { DMG_FIRST_FRAME_ARM_DOT }
        } else if m.cgb_features {
            CGB_PIXEL_TRANSFER_ARM_DOT
        } else {
            DMG_PIXEL_TRANSFER_ARM_DOT
        }
    }

    /// The line's objects, in fetch order.
    pub open spec fn arm_sprites(self, m: Mmio) -> PpuView {
        let s0 = PpuView { objs: Objs { next_sprite_fetch_index: 0, ..self.objs }, ..self };
        let s = if self.clk.first_line_after_enable { s0 } else { s0.build_sprites(m) };
        PpuView {
            line: LineObjsView {
                sprites: sort_sprites(m.cgb_features, s.line.sprites),
                ..s.line
            },
            ..s
        }
    }

    /// Fetcher, objects and window as drawing starts.
    #[verifier::opaque]
    pub open spec fn arm_reset(self, m: Mmio) -> PpuView {
        let we = self.lcdc_has(LCDCFlags::WindowDisplayEnable);
        PpuView {
            x: 0,
            fetcher: self.fetcher.reset(),
            m3: M3 {
                subcc_scx_apply_cc: DISABLED_TIME,
                prologue_rekey_armed: false,
                ..self.m3
            },
            objs: Objs {
                next_sprite_fetch_index: 0,
                m3_sprite_prev_tile: SPRITE_TILE_NONE,
                m3_last_sprite_commit_tick: 0,
                sprite_fetch_stall: 0,
                fetcher_cadence_tick: 0,
                pixel_transfer_warmup: if m.cgb_features {
                    CGB_PIXEL_TRANSFER_WARMUP
                } else {
                    DMG_PIXEL_TRANSFER_WARMUP
                },
                ..self.objs
            },
            win: Win {
                win_fetch_anchor: None,
                win_first_tile_chop: 0,
                win_being_fetched: false,
                insert_bg_pixel: false,
                win_wx0_delayed: false,
                dmg_wx_trigger_pending: None,
                we_dot_hist: WeHist { d0: we, d1: we, d2: we, d3: we, d4: we },
                we_glitch_tile_start_a: None,
                we_glitch_tile_start_b: None,
                we_glitch_discard_insert: false,
                we_insert_suppressed: false,
                ..self.win
            },
            state: State::PixelTransfer,
            ..self
        }
    }

    /// A window that started at the end of the line before goes on from the
    /// left edge.
    #[verifier::opaque]
    pub open spec fn arm_window(self, m: Mmio) -> PpuView {
        let we = self.lcdc_has(LCDCFlags::WindowDisplayEnable);
        let first = self.clk.first_line_after_enable;
        if self.win.win_draw_start && we && !first {
            PpuView {
                win: Win {
                    win_y_pos: self.win.win_y_pos.wrapping_add(1),
                    win_draw_started: true,
                    win_draw_started_at_x0: true,
                    win_kill_tap_late: false,
                    window_started_this_line: true,
                    win_start_dot: Some(self.ticks),
                    win_draw_start: false,
                    ..self.win
                },
                fetcher: self.fetcher.start_window(0, ((8 + m.scx % 8) / 8) as u8),
                ..self
            }
        } else {
            PpuView {
                win: Win {
                    win_draw_started_at_x0: false,
                    win_draw_started: self.win.win_draw_started && !(we && !first),
                    win_draw_start: false,
                    ..self.win
                },
                ..self
            }
        }
    }

    /// The registers that the line's histories start from.
    pub open spec fn hist_seed(self, m: Mmio) -> HistSeed {
        HistSeed {
            bgen: self.lcdc_has(LCDCFlags::BGDisplay),
            objen: self.lcdc_has(LCDCFlags::SpriteDisplayEnable),
            objsize: self.lcdc_has(LCDCFlags::SpriteSize),
            bgp: self.plot.bgp_delayed,
            bgp_dot: if self.is_cgb_compat_dmg(m) { m.bgp } else { self.plot.bgp_delayed },
            obp0: self.plot.obp0_delayed,
            obp1: self.plot.obp1_delayed,
        }
    }

    /// The line's records start over.
    #[verifier::opaque]
    pub open spec fn arm_records(self, m: Mmio) -> PpuView {
        let hist = HistView::started(self.hist_seed(m));
        let early = if m.is_cgb() { None } else { self.plot.bgp_mode2_pending };
        PpuView {
            journal: JournalView::empty(),
            wg: BusGlitch {
                wg_cgb: self.is_cgb_compat_dmg(m),
                wg_anchor_cc: None,
                wg_dpre: 0,
                bg_anchor_cc: None,
                bg_anchor_dot: None,
            },
            hist: match early {
                Some(e) => hist.with_early_bgp(e.cc, e.value),
                None => hist,
            },
            plot: Plot {
                bgp_defer_countdown: 0,
                bgp_mode2_pending: None,
                bgp_delayed: match early {
                    Some(e) => e.value,
                    None => self.plot.bgp_delayed,
                },
                ..self.plot
            },
            line: LineObjsView {
                recs: Seq::new(self.line.sprites.len(), |i: int| SpriteFetchRec::pending()),
                ..self.line
            },
            ..self
        }
    }

    /// The line's scroll as drawing starts.
    #[verifier::opaque]
    pub open spec fn arm_scroll(self, m: Mmio, was_first: bool) -> PpuView {
        let back = dots_to_cycles((self.latch.scx_prev_f1 % 8) as int, m.double_speed);
        PpuView {
            clk: Clk { first_line_after_enable: false, ..self.clk },
            m0: M0 { mode0_reported_this_line: false, ..self.m0 },
            win: Win { wxa6_lineend_applied: false, ..self.win },
            m3: M3 {
                line_rendered_this_line: false,
                m3_pixels_discarded: 0,
                m3_arm_dot: self.ticks,
                m3_arm_scx: m.scx % 8,
                m3_arm_scx_full: m.scx as i16,
                first_line_scx_override: if was_first {
                    Some(self.scx_f1_pending_at_cc((self.clk.abs_cc + back) as u64))
                } else {
                    None
                },
                m3_discard_target: if was_first { (m.scx % 8) as i8 } else { (-1int) as i8 },
                ..self.m3
            },
            latch: Latch {
                scx_prev_f1: m.scx,
                scx_f1_apply_cc: DISABLED_TIME,
                ..self.latch
            },
            ..self
        }
    }

    /// The end of the line's mode 3, for the line after switching on.
    pub open spec fn arm_schedule_first(self, m: Mmio) -> PpuView {
        let cgb = m.cgb_features;
        PpuView {
            m0: M0 {
                m0_time_master: Some(
                    self.m0_time_exact(m, self.m3_length(m, cgb), cgb, true) as u64,
                ),
                scheduled_mode0_dot: None,
                cgbp_block_start_cc: Some(self.cgbp_begin_exact(m) as u64),
                ..self.m0
            },
            m3: M3 { first_line_scx_override: None, ..self.m3 },
            ..self
        }
    }

    /// The end of any other line's mode 3.
    pub open spec fn line_m0_time(self, m: Mmio) -> int {
        let cgb = m.cgb_features;
        self.m0_time_exact(m, self.m3_length(m, cgb), cgb, false) + dots_to_cycles(
            self.sprite0_scx_extra(m, cgb),
            m.double_speed,
        )
    }

    /// The dot on which a DMG window is expected to start.
    pub open spec fn predicted_window_dot(self, m: Mmio) -> Option<u128> {
        if !m.cgb_features && self.window_will_start(m) {
            Some(
                at_least_zero_spec(
                    self.m3.m3_arm_dot + DMG_PIXEL_TRANSFER_WARMUP + 8 + self.m3.m3_arm_scx + imax(
                        0,
                        m.wx - 7,
                    ) - 1,
                ) as u128,
            )
        } else {
            None
        }
    }

    #[verifier::opaque]
    pub open spec fn arm_schedule_line(self, m: Mmio) -> (PpuView, Mmio) {
        let m0t = self.line_m0_time(m);
        (
            PpuView {
                m0: M0 {
                    m0_time_master: Some(m0t as u64),
                    scheduled_mode0_dot: Some(
                        at_least_zero_spec(
                            self.ticks + cycles_to_dots(m0t - m.master_cc, m.double_speed),
                        ) as u128,
                    ),
                    m3_scheduled_wx: m.wx,
                    m3_scheduled_win: self.window_will_start(m),
                    cgbp_block_start_cc: Some(self.cgbp_begin_exact(m) as u64),
                    ..self.m0
                },
                win: Win {
                    predicted_win_start_dot: self.predicted_window_dot(m),
                    ..self.win
                },
                ..self
            },
            if m.cgb_features {
                Mmio {
                    hdma_tracker_sleep: (if m0t < 8 { 0 } else { m0t - 8 }) as u64,
                    ..m
                }
            } else {
                m
            },
        )
    }

    pub open spec fn arm_schedule(self, m: Mmio, was_first: bool) -> (PpuView, Mmio) {
        if was_first {
            (self.arm_schedule_first(m), m)
        } else {
            self.arm_schedule_line(m)
        }
    }

    /// Drawing starts.
    pub open spec fn arm_mode3(self, m: Mmio) -> (PpuView, Mmio) {
        let first = self.clk.first_line_after_enable;
        let n = Mmio { stat: stat_with_mode(m.stat, 3), ..m };
        let s = self.arm_sprites(m).arm_reset(m).arm_window(m).arm_scroll(m, first).arm_records(m);
        let (t, n2) = s.arm_schedule(n, first);
        (
            PpuView {
                clk: Clk { sched_m0irq: t.m0irq_time(n2, first) as u64, ..t.clk.touched() },
                ..t
            },
            n2,
        )
    }

    /// One dot of mode 2.
    pub open spec fn step_mode2(self, m: Mmio) -> (PpuView, Mmio) {
        let (s, n) = self.mode2_line_start().mode2_first_line(m);
        let t = s.mode2_scan_slot(n);
        if t.ticks == t.arm_dot(n) { t.arm_mode3(n) } else { (t, n) }
    }

    /// No object is being fetched, nothing is warming up.
    pub open spec fn idle_objs(self) -> Objs {
        Objs {
            next_sprite_fetch_index: 0,
            sprite_fetch_stall: 0,
            pixel_transfer_warmup: 0,
            ..self.objs
        }
    }

    /// The end of the last visible line: vertical blank begins.
    #[verifier::opaque]
    pub open spec fn enter_vblank(self, m: Mmio) -> (PpuView, Mmio) {
        let repeat = if self.out.frames_since_enable == 0 {
            self.renders_color(m) && self.panel_recently_driven(m)
        } else {
            self.out.repeat_skip_pending
        };
        (
            PpuView {
                ticks: 0,
                state: State::VBlank,
                out: FrameOut {
                    repeat_skip_pending: repeat,
                    last_drive_cc: if self.out.frames_since_enable != 0 || repeat {
                        m.master_cc
                    } else {
                        self.out.last_drive_cc
                    },
                    ..self.out
                },
                clk: Clk { m1_vblank_fired: false, ..self.clk },
                ..self
            },
            Mmio {
                ly: 144,
                stat: stat_with_mode(m.stat, 1),
                irq: if self.clk.m1_vblank_fired {
                    m.irq
                } else {
                    m.irq | InterruptFlag::VBlank.mask()
                },
                ..m
            },
        )
    }

    /// The end of another line: the next scan begins.
    pub open spec fn enter_next_line(self, m: Mmio) -> (PpuView, Mmio) {
        let s = PpuView { ticks: 0, state: State::OAMSearch, ..self };
        let (t, n) = s.enter_scheduled_mode2(Mmio { ly: (m.ly + 1) as u8, ..m });
        (PpuView { objs: t.idle_objs(), ..t }, n)
    }

    /// One dot of mode 0; `true` when the line has ended.
    pub open spec fn step_hblank(self, m: Mmio) -> (PpuView, Mmio, bool) {
        if self.ticks != 455 {
            (self, m, false)
        } else if m.ly >= 143 {
            let (s, n) = self.enter_vblank(m);
            (s, n, true)
        } else {
            let (s, n) = self.enter_next_line(m);
            (s, n, true)
        }
    }

    /// LY turns 0 early on the last line, and the LYC flag with it.
    #[verifier::opaque]
    pub open spec fn zero_line_153(self, m: Mmio) -> (PpuView, Mmio) {
        if !self.clk.line_153_ly_zeroed && self.ticks == LINE_153_LY_ZERO_DOT && m.ly == 153 {
            (
                PpuView { clk: Clk { line_153_ly_zeroed: true, ..self.clk }, ..self },
                Mmio { ly: 0, stat: stat_with_lyc(m.stat, m.lyc == 0), ..m },
            )
        } else {
            (self, m)
        }
    }

    /// The first frame after switching on is skipped with the panel still
    /// showing the picture before.
    pub open spec fn skips_frame(self) -> bool {
        self.out.frames_since_enable == 0 && self.out.repeat_skip_pending
    }

    /// The pictures at the end of a frame.
    #[verifier::opaque]
    pub open spec fn finished_frames(self, m: Mmio) -> FramesView {
        if self.skips_frame() {
            FramesView { color_fb_a: filled(self.frames.color_fb_a.len(), 0), ..self.frames }
        } else if self.renders_color(m) {
            self.frames.finish_color()
        } else {
            self.frames.finish_mono()
        }
    }

    /// The panel at the end of a frame.
    #[verifier::opaque]
    pub open spec fn finished_out(self) -> FrameOut {
        let n = if self.skips_frame() {
            2
        } else if self.out.frames_since_enable == 255 {
            255
        } else {
            (self.out.frames_since_enable + 1) as u8
        };
        FrameOut {
            repeat_skip_pending: false,
            have_frame: true,
            frames_since_enable: n,
            panel_holds_image: n >= 2,
            ..self.out
        }
    }

    #[verifier::opaque]
    pub open spec fn finished_speed(self) -> SpeedPhase {
        let n = if self.speed.ssds_mode3_frames == 255 {
            255
        } else {
            (self.speed.ssds_mode3_frames + 1) as u8
        };
        if self.speed.ssds_mode3_ly_advance {
            SpeedPhase {
                ssds_mode3_frames: n,
                ssds_mode3_ly_advance: n < 2,
                ..self.speed
            }
        } else {
            self.speed
        }
    }

    /// The end of a frame: the picture is handed over, the next frame's first
    /// scan begins and the window starts over.
    pub open spec fn end_frame(self, m: Mmio) -> (PpuView, Mmio) {
        let s = PpuView {
            ticks: 0,
            state: State::OAMSearch,
            clk: Clk {
                line_153_ly_zeroed: false,
                l154_vblank_glitch_window: true,
                ..self.clk
            },
            win: Win {
                win_y_pos: 0xFF,
                window_y_triggered: false,
                window_started_this_line: false,
                ..self.win
            },
            frames: self.finished_frames(m),
            out: self.finished_out(),
            speed: self.finished_speed(),
            ..self
        };
        let (t, n) = s.enter_scheduled_mode2(Mmio { ly: 0, ..m });
        (PpuView { objs: t.idle_objs(), ..t }, n)
    }

    /// The end of a line of vertical blank.
    #[verifier::opaque]
    pub open spec fn next_vblank_line(self, m: Mmio) -> (PpuView, Mmio) {
        let drive = m.ly + 1 <= 152 && (self.out.frames_since_enable != 0
            || self.out.repeat_skip_pending);
        if 144 <= m.ly < 153 {
            (
                PpuView {
                    ticks: 0,
                    out: FrameOut {
                        last_drive_cc: if drive { m.master_cc } else { self.out.last_drive_cc },
                        ..self.out
                    },
                    ..self
                },
                Mmio { ly: (m.ly + 1) as u8, ..m },
            )
        } else {
            (PpuView { ticks: 0, ..self }, m)
        }
    }

    /// One dot of mode 1; `true` when the line has ended.
    pub open spec fn step_vblank(self, m: Mmio) -> (PpuView, Mmio, bool) {
        let (s, n) = self.zero_line_153(m);
        if s.ticks != 455 {
            (s, n, false)
        } else if n.ly >= 153 || s.clk.line_153_ly_zeroed {
            let (t, k) = s.end_frame(n);
            (t, k, true)
        } else {
            let (t, k) = s.next_vblank_line(n);
            (t, k, true)
        }
    }
}

impl Ppu {
    fn enter_scheduled_mode2(&mut self, mmio: &mut Mmio)
        requires
            old(self).wf(),
            old(self)@.in_range(),
        ensures
            final(self).wf(),
            (final(self)@, *final(mmio)) == old(self)@.enter_scheduled_mode2(*old(mmio)),
    {
        reveal(PpuView::enter_scheduled_mode2);
        if mmio.is_cgb_features_enabled() && !self.clk.first_line_after_enable {
            let lead: u64 = if mmio.is_double_speed_mode() { 152 } else { 76 };
            mmio.hdma_tracker_sleep = mmio.master_cc().wrapping_add(lead);
        }
        let start: u64 = self.cgbp_begin_exact(mmio);
        self.objs = Objs {
            scan_obj_size_large: self.lcdc_has(LCDCFlags::SpriteSize),
            objsize_apply_cc: DISABLED_TIME,
            ..self.objs
        };
        Self::set_lcd_status_mode(mmio, 2);
        self.m0 = M0 { cgbp_block_start_cc: Some(start), ..self.m0 };
    }

    pub fn step_scheduled_stat_events(&self, mmio: &mut Mmio)
        ensures
            *final(mmio) == self@.step_scheduled_stat_events(*old(mmio)),
    {
        if self.disabled || self.ticks != MODE2_STAT_PRETRIGGER_DOT + 1 {
            return;
        }
        let ahead = match self.state {
            State::HBlank => mmio.ly < 143,
            State::VBlank => mmio.ly == 153 || self.clk.line_153_ly_zeroed,
            _ => false,
        };
        if ahead && (mmio.stat & 0x03) != 2 {
            Self::set_lcd_status_mode(mmio, 2);
        }
    }

    fn mode2_line_start(&mut self)
        requires
            old(self).wf(),
            old(self)@.in_range(),
        ensures
            final(self).wf(),
            final(self)@.in_range(),
            final(self)@ == old(self)@.mode2_line_start(),
    {
        reveal(PpuView::mode2_line_start);
        if self.ticks == 0 {
            self.win = Win {
                window_started_this_line: false,
                win_weoff_deferred_tail: false,
                win_start_dot: None,
                predicted_win_start_dot: None,
                win_wx_penalty_resolved: false,
                win_wx_enable_resolved: false,
                ..self.win
            };
            self.line.clear();
            self.objs = Objs {
                current_oam_sprite_index: 0,
                next_sprite_fetch_index: 0,
                sprite_fetch_stall: 0,
                pixel_transfer_warmup: 0,
                ..self.objs
            };
        }
    }

    fn mode2_first_line(&mut self, mmio: &mut Mmio)
        requires
            old(self).wf(),
            old(self)@.in_range(),
        ensures
            final(self).wf(),
            final(self)@.in_range(),
            (final(self)@, *final(mmio)) == old(self)@.mode2_first_line(*old(mmio)),
    {
        reveal(PpuView::mode2_first_line);
        if self.clk.first_line_after_enable {
            let is_cgb = mmio.is_cgb_features_enabled();
            let lock_dot: u128 = if is_cgb {
                cgb_first_frame_lock_dot(mmio.is_double_speed_mode())
            } else {
                DMG_FIRST_FRAME_LOCK_DOT
            };
            let m3_len: u128 = self.compute_m3_length(mmio, is_cgb);
            let m0t: u64 = self.m0_time_exact(mmio, m3_len, is_cgb, true);
            let start: u64 = self.cgbp_begin_exact(mmio);
            self.m0 = M0 {
                m0_time_master: Some(m0t),
                cgbp_block_start_cc: Some(start),
                ..self.m0
            };
            if self.ticks == lock_dot && (mmio.stat & 0x03) != 3 {
                Self::set_lcd_status_mode(mmio, 3);
            }
        }
    }

    fn mode2_scan_slot(&mut self, mmio: &Mmio)
        requires
            old(self).wf(),
            old(self)@.in_range(),
        ensures
            final(self).wf(),
            final(self)@.in_range(),
            final(self)@ == old(self)@.mode2_scan_slot(*mmio),
    {
        reveal(PpuView::mode2_scan_slot);
        let i: usize = self.objs.current_oam_sprite_index;
        if !self.clk.first_line_after_enable && self.ticks % 2 == 0 && i < 40 {
            let large = if self.objs.objsize_apply_cc != DISABLED_TIME {
                self.objsize_large_at_cc(self.clk.abs_cc)
            } else {
                self.objs.scan_obj_size_large
            };
            self.objs = Objs { scan_obj_size_large: large, ..self.objs };
            self.line.set_slot_large(i, large);
            self.check_single_sprite_for_scanline(mmio, i);
            let tall = self.lcdc_has(LCDCFlags::SpriteSize);
            self.objs = Objs {
                current_oam_sprite_index: i + 1,
                scan_obj_size_large: tall,
                ..self.objs
            };
        }
    }

    fn arm_dot(&self, mmio: &Mmio) -> (r: u128)
        ensures
            r == self@.arm_dot(*mmio),
    {
        let is_cgb = mmio.is_cgb_features_enabled();
        if self.clk.first_line_after_enable {
            if is_cgb { CGB_FIRST_FRAME_ARM_DOT } else { DMG_FIRST_FRAME_ARM_DOT }
        } else if is_cgb {
            CGB_PIXEL_TRANSFER_ARM_DOT
        } else {
            DMG_PIXEL_TRANSFER_ARM_DOT
        }
    }

    fn arm_sprites(&mut self, mmio: &Mmio)
        requires
            old(self).wf(),
            old(self)@.in_range(),
        ensures
            final(self).wf(),
            final(self)@.in_range(),
            final(self)@ == old(self)@.arm_sprites(*mmio),
    {
        self.objs = Objs { next_sprite_fetch_index: 0, ..self.objs };
        if !self.clk.first_line_after_enable {
            self.build_sprites_from_snapshot(mmio);
        }
        self.line.sort(mmio.is_cgb_features_enabled());
    }

    fn arm_reset(&mut self, mmio: &Mmio)
        requires
            old(self).wf(),
            old(self)@.in_range(),
        ensures
            final(self).wf(),
            final(self)@.in_range(),
            final(self)@ == old(self)@.arm_reset(*mmio),
    {
        reveal(PpuView::arm_reset);
        let we = self.lcdc_has(LCDCFlags::WindowDisplayEnable);
        self.x = 0;
        self.fetcher.reset();
        self.m3 = M3 {
            subcc_scx_apply_cc: DISABLED_TIME,
            prologue_rekey_armed: false,
            ..self.m3
        };
        self.objs = Objs {
            next_sprite_fetch_index: 0,
            m3_sprite_prev_tile: SPRITE_TILE_NONE,
            m3_last_sprite_commit_tick: 0,
            sprite_fetch_stall: 0,
            fetcher_cadence_tick: 0,
            pixel_transfer_warmup: if mmio.is_cgb_features_enabled() {
                CGB_PIXEL_TRANSFER_WARMUP
            } else {
                DMG_PIXEL_TRANSFER_WARMUP
            },
            ..self.objs
        };
        self.win = Win {
            win_fetch_anchor: None,
            win_first_tile_chop: 0,
            win_being_fetched: false,
            insert_bg_pixel: false,
            win_wx0_delayed: false,
            dmg_wx_trigger_pending: None,
            we_dot_hist: WeHist { d0: we, d1: we, d2: we, d3: we, d4: we },
            we_glitch_tile_start_a: None,
            we_glitch_tile_start_b: None,
            we_glitch_discard_insert: false,
            we_insert_suppressed: false,
            ..self.win
        };
        self.state = State::PixelTransfer;
    }

    fn arm_window(&mut self, mmio: &Mmio)
        requires
            old(self).wf(),
            old(self)@.in_range(),
        ensures
            final(self).wf(),
            final(self)@.in_range(),
            final(self)@ == old(self)@.arm_window(*mmio),
    {
        reveal(PpuView::arm_window);
        let win_en = self.lcdc_has(LCDCFlags::WindowDisplayEnable);
        let first = self.clk.first_line_after_enable;
        if self.win.win_draw_start && win_en && !first {
            let start_tile: u8 = (8 + mmio.scx % 8) / 8;
            self.fetcher.start_window_at_tile(0, start_tile);
            self.win = Win {
                win_y_pos: self.win.win_y_pos.wrapping_add(1),
                win_draw_started: true,
                win_draw_started_at_x0: true,
                win_kill_tap_late: false,
                window_started_this_line: true,
                win_start_dot: Some(self.ticks),
                win_draw_start: false,
                ..self.win
            };
        } else {
            self.win = Win {
                win_draw_started_at_x0: false,
                win_draw_started: self.win.win_draw_started && !(win_en && !first),
                win_draw_start: false,
                ..self.win
            };
        }
    }

    fn arm_scroll(&mut self, mmio: &Mmio, was_first: bool)
        requires
            old(self).wf(),
            old(self)@.in_range(),
        ensures
            final(self).wf(),
            final(self)@.in_range(),
            final(self)@ == old(self)@.arm_scroll(*mmio, was_first),
    {
        reveal(PpuView::arm_scroll);
        let prev_scx: u64 = (self.latch.scx_prev_f1 % 8) as u64;
        let back: u64 = if mmio.is_double_speed_mode() { prev_scx * 2 } else { prev_scx };
        let over: Option<u8> = if was_first {
            Some(self.scx_f1_pending_at_cc(self.clk.abs_cc + back))
        } else {
            None
        };
        self.clk = Clk { first_line_after_enable: false, ..self.clk };
        self.m0 = M0 { mode0_reported_this_line: false, ..self.m0 };
        self.win = Win { wxa6_lineend_applied: false, ..self.win };
        self.m3 = M3 {
            line_rendered_this_line: false,
            m3_pixels_discarded: 0,
            m3_arm_dot: self.ticks,
            m3_arm_scx: mmio.scx % 8,
            m3_arm_scx_full: mmio.scx as i16,
            first_line_scx_override: over,
            m3_discard_target: if was_first { (mmio.scx % 8) as i8 } else { -1 },
            ..self.m3
        };
        self.latch = Latch { scx_prev_f1: mmio.scx, scx_f1_apply_cc: DISABLED_TIME, ..self.latch };
    }

    fn hist_seed(&self, mmio: &Mmio) -> (r: HistSeed)
        ensures
            r == self@.hist_seed(*mmio),
    {
        HistSeed {
            bgen: self.lcdc_has(LCDCFlags::BGDisplay),
            objen: self.lcdc_has(LCDCFlags::SpriteDisplayEnable),
            objsize: self.lcdc_has(LCDCFlags::SpriteSize),
            bgp: self.plot.bgp_delayed,
            bgp_dot: if self.is_cgb_compat_dmg(mmio) { mmio.bgp } else { self.plot.bgp_delayed },
            obp0: self.plot.obp0_delayed,
            obp1: self.plot.obp1_delayed,
        }
    }

    fn arm_records(&mut self, mmio: &Mmio)
        requires
            old(self).wf(),
            old(self)@.in_range(),
        ensures
            final(self).wf(),
            final(self)@.in_range(),
            final(self)@ == old(self)@.arm_records(*mmio),
    {
        reveal(PpuView::arm_records);
        let seed: HistSeed = self.hist_seed(mmio);
        let early: Option<EarlyBgp> = if mmio.is_cgb() { None } else { self.plot.bgp_mode2_pending };
        self.journal.clear();
        self.wg = BusGlitch {
            wg_cgb: self.is_cgb_compat_dmg(mmio),
            wg_anchor_cc: None,
            wg_dpre: 0,
            bg_anchor_cc: None,
            bg_anchor_dot: None,
        };
        self.hist.start(seed);
        let mut bgp: u8 = self.plot.bgp_delayed;
        if let Some(e) = early {
            self.hist.early_bgp(e.cc, e.value);
            bgp = e.value;
        }
        self.plot = Plot {
            bgp_defer_countdown: 0,
            bgp_mode2_pending: None,
            bgp_delayed: bgp,
            ..self.plot
        };
        self.line.reset_recs();
    }

    fn arm_schedule_first(&mut self, mmio: &Mmio)
        requires
            old(self).wf(),
            old(self)@.in_range(),
        ensures
            final(self).wf(),
            final(self)@.in_range(),
            final(self)@ == old(self)@.arm_schedule_first(*mmio),
    {
        let is_cgb = mmio.is_cgb_features_enabled();
        let m3_len: u128 = self.compute_m3_length(mmio, is_cgb);
        let m0t: u64 = self.m0_time_exact(mmio, m3_len, is_cgb, true);
        let start: u64 = self.cgbp_begin_exact(mmio);
        self.m0 = M0 {
            m0_time_master: Some(m0t),
            scheduled_mode0_dot: None,
            cgbp_block_start_cc: Some(start),
            ..self.m0
        };
        self.m3 = M3 { first_line_scx_override: None, ..self.m3 };
    }

    fn line_m0_time(&self, mmio: &Mmio) -> (r: u64)
        requires
            self@.wf(),
            self@.in_range(),
        ensures
            r == self@.line_m0_time(*mmio),
            r < 4 * CLOCK_LIMIT + 16,
    {
        let is_cgb = mmio.is_cgb_features_enabled();
        let m3_len: u128 = self.compute_m3_length(mmio, is_cgb);
        let extra: u64 = self.sprite0_scx_extra(mmio, is_cgb) as u64;
        self.m0_time_exact(mmio, m3_len, is_cgb, false) + (if mmio.is_double_speed_mode() {
            extra * 2
        } else {
            extra
        })
    }

    fn predicted_window_dot(&self, mmio: &Mmio) -> (r: Option<u128>)
        requires
            self@.in_range(),
        ensures
            r == self@.predicted_window_dot(*mmio),
            r matches Some(d) ==> d < 2 * CLOCK_LIMIT,
    {
        if !mmio.is_cgb_features_enabled() && self.window_will_start(mmio) {
            let x_at_start: i64 = max_i64(0, mmio.wx as i64 - 7);
            Some(
                at_least_zero(
                    self.m3.m3_arm_dot as i64 + DMG_PIXEL_TRANSFER_WARMUP as i64 + 8
                        + self.m3.m3_arm_scx as i64 + x_at_start - 1,
                ) as u128,
            )
        } else {
            None
        }
    }

    fn arm_schedule_line(&mut self, mmio: &mut Mmio)
        requires
            old(self).wf(),
            old(self)@.in_range(),
            old(mmio).master_cc < CLOCK_LIMIT,
        ensures
            final(self).wf(),
            final(self)@.in_range(),
            (final(self)@, *final(mmio)) == old(self)@.arm_schedule_line(*old(mmio)),
    {
        reveal(PpuView::arm_schedule_line);
        let ds = mmio.is_double_speed_mode();
        let m0t: u64 = self.line_m0_time(mmio);
        let span: i64 = m0t as i64 - mmio.master_cc() as i64;
        let dot: u64 = at_least_zero(self.ticks as i64 + to_dots_signed(span, ds));
        let will_start = self.window_will_start(mmio);
        let predicted: Option<u128> = self.predicted_window_dot(mmio);
        let start: u64 = self.cgbp_begin_exact(mmio);
        self.m0 = M0 {
            m0_time_master: Some(m0t),
            scheduled_mode0_dot: Some(dot as u128),
            m3_scheduled_wx: mmio.wx,
            m3_scheduled_win: will_start,
            cgbp_block_start_cc: Some(start),
            ..self.m0
        };
        self.win = Win { predicted_win_start_dot: predicted, ..self.win };
        if mmio.is_cgb_features_enabled() {
            mmio.hdma_tracker_sleep = if m0t < 8 { 0 } else { m0t - 8 };
        }
    }

    fn arm_mode3(&mut self, mmio: &mut Mmio)
        requires
            old(self).wf(),
            old(self)@.in_range(),
            old(mmio).master_cc < CLOCK_LIMIT,
        ensures
            final(self).wf(),
            (final(self)@, *final(mmio)) == old(self)@.arm_mode3(*old(mmio)),
    {
        let was_first = self.clk.first_line_after_enable;
        self.arm_sprites(mmio);
        self.arm_reset(mmio);
        self.arm_window(mmio);
        self.arm_scroll(mmio, was_first);
        self.arm_records(mmio);
        Self::set_lcd_status_mode(mmio, 3);
        if was_first {
            self.arm_schedule_first(mmio);
        } else {
            self.arm_schedule_line(mmio);
        }
        self.arm_m0irq_for_current_line(mmio, was_first);
    }

    pub(crate) fn step_mode2(&mut self, mmio: &mut Mmio)
        requires
            old(self).wf(),
            old(self)@.in_range(),
            old(mmio).master_cc < CLOCK_LIMIT,
        ensures
            final(self).wf(),
            (final(self)@, *final(mmio)) == old(self)@.step_mode2(*old(mmio)),
    {
        self.mode2_line_start();
        self.mode2_first_line(mmio);
        self.mode2_scan_slot(mmio);
        assert(mmio.master_cc == old(mmio).master_cc) by {
            reveal(PpuView::mode2_first_line);
        }
        if self.ticks == self.arm_dot(mmio) {
            self.arm_mode3(mmio);
        }
    }

    fn enter_vblank(&mut self, mmio: &mut Mmio)
        requires
            old(self).wf(),
        ensures
            final(self).wf(),
            (final(self)@, *final(mmio)) == old(self)@.enter_vblank(*old(mmio)),
    {
        reveal(PpuView::enter_vblank);
        let repeat = if self.out.frames_since_enable == 0 {
            self.renders_color(mmio) && self.panel_recently_driven(mmio)
        } else {
            self.out.repeat_skip_pending
        };
        let drive: u64 = if self.out.frames_since_enable != 0 || repeat {
            mmio.master_cc()
        } else {
            self.out.last_drive_cc
        };
        self.ticks = 0;
        self.state = State::VBlank;
        self.out = FrameOut { repeat_skip_pending: repeat, last_drive_cc: drive, ..self.out };
        mmio.write_ly_from_ppu(144);
        Self::set_lcd_status_mode(mmio, 1);
        if !self.clk.m1_vblank_fired {
            mmio.request_interrupt(InterruptFlag::VBlank);
        }
        self.clk = Clk { m1_vblank_fired: false, ..self.clk };
    }

    fn idle_objs(&mut self)
        requires
            old(self).wf(),
        ensures
            final(self).wf(),
            final(self)@ == (PpuView { objs: old(self)@.idle_objs(), ..old(self)@ }),
    {
        self.objs = Objs {
            next_sprite_fetch_index: 0,
            sprite_fetch_stall: 0,
            pixel_transfer_warmup: 0,
            ..self.objs
        };
    }

    pub(crate) fn step_hblank(&mut self, mmio: &mut Mmio) -> (r: bool)
        requires
            old(self).wf(),
            old(self)@.in_range(),
        ensures
            final(self).wf(),
            (final(self)@, *final(mmio), r) == old(self)@.step_hblank(*old(mmio)),
    {
        if self.ticks != 455 {
            return false;
        }
        if mmio.ly >= 143 {
            self.enter_vblank(mmio);
        } else {
            self.ticks = 0;
            self.state = State::OAMSearch;
            let next_ly: u8 = mmio.ly + 1;
            mmio.write_ly_from_ppu(next_ly);
            self.enter_scheduled_mode2(mmio);
            self.idle_objs();
        }
        true
    }

    fn zero_line_153(&mut self, mmio: &mut Mmio)
        requires
            old(self).wf(),
            old(self)@.in_range(),
        ensures
            final(self).wf(),
            final(self)@.in_range(),
            (final(self)@, *final(mmio)) == old(self)@.zero_line_153(*old(mmio)),
    {
        reveal(PpuView::zero_line_153);
        if !self.clk.line_153_ly_zeroed && self.ticks == LINE_153_LY_ZERO_DOT && mmio.ly == 153 {
            mmio.write_ly_from_ppu(0);
            self.clk = Clk { line_153_ly_zeroed: true, ..self.clk };
            let met = mmio.lyc == 0;
            Self::set_lyc_flag(mmio, met);
        }
    }

    fn finish_frames(&mut self, mmio: &Mmio)
        requires
            old(self).wf(),
        ensures
            final(self).wf(),
            final(self)@ == (PpuView {
                frames: old(self)@.finished_frames(*mmio),
                ..old(self)@
            }),
    {
        reveal(PpuView::finished_frames);
        if self.out.frames_since_enable == 0 && self.out.repeat_skip_pending {
            self.frames.clear_color_a();
        } else if self.renders_color(mmio) {
            self.frames.finish_color();
        } else {
            self.frames.finish_mono();
        }
    }

    fn finished_out(&self) -> (r: FrameOut)
        ensures
            r == self@.finished_out(),
    {
        reveal(PpuView::finished_out);
        let n: u8 = if self.out.frames_since_enable == 0 && self.out.repeat_skip_pending {
            2
        } else if self.out.frames_since_enable == 255 {
            255
        } else {
            self.out.frames_since_enable + 1
        };
        FrameOut {
            repeat_skip_pending: false,
            have_frame: true,
            frames_since_enable: n,
            panel_holds_image: n >= 2,
            ..self.out
        }
    }

    fn finished_speed(&self) -> (r: SpeedPhase)
        ensures
            r == self@.finished_speed(),
            r.render_carry_skew_cc == self@.speed.render_carry_skew_cc,
    {
        reveal(PpuView::finished_speed);
        if !self.speed.ssds_mode3_ly_advance {
            return self.speed;
        }
        let n: u8 = if self.speed.ssds_mode3_frames == 255 {
            255
        } else {
            self.speed.ssds_mode3_frames + 1
        };
        SpeedPhase { ssds_mode3_frames: n, ssds_mode3_ly_advance: n < 2, ..self.speed }
    }

    fn end_frame(&mut self, mmio: &mut Mmio)
        requires
            old(self).wf(),
            old(self)@.in_range(),
        ensures
            final(self).wf(),
            (final(self)@, *final(mmio)) == old(self)@.end_frame(*old(mmio)),
    {
        let out: FrameOut = self.finished_out();
        let speed: SpeedPhase = self.finished_speed();
        self.finish_frames(mmio);
        self.ticks = 0;
        self.state = State::OAMSearch;
        self.out = out;
        self.speed = speed;
        self.clk = Clk {
            line_153_ly_zeroed: false,
            l154_vblank_glitch_window: true,
            ..self.clk
        };
        self.win = Win {
            win_y_pos: 0xFF,
            window_y_triggered: false,
            window_started_this_line: false,
            ..self.win
        };
        mmio.write_ly_from_ppu(0);
        self.enter_scheduled_mode2(mmio);
        self.idle_objs();
    }

    fn next_vblank_line(&mut self, mmio: &mut Mmio)
        requires
            old(self).wf(),
        ensures
            final(self).wf(),
            (final(self)@, *final(mmio)) == old(self)@.next_vblank_line(*old(mmio)),
    {
        reveal(PpuView::next_vblank_line);
        self.ticks = 0;
        if 144 <= mmio.ly && mmio.ly < 153 {
            let next_ly: u8 = mmio.ly + 1;
            mmio.write_ly_from_ppu(next_ly);
            if next_ly <= 152 && (self.out.frames_since_enable != 0
                || self.out.repeat_skip_pending) {
                self.out = FrameOut { last_drive_cc: mmio.master_cc(), ..self.out };
            }
        }
    }

    pub(crate) fn step_vblank(&mut self, mmio: &mut Mmio) -> (r: bool)
        requires
            old(self).wf(),
            old(self)@.in_range(),
        ensures
            final(self).wf(),
            (final(self)@, *final(mmio), r) == old(self)@.step_vblank(*old(mmio)),
    {
        self.zero_line_153(mmio);
        if self.ticks != 455 {
            return false;
        }
        if mmio.ly >= 153 || self.clk.line_153_ly_zeroed {
            self.end_frame(mmio);
        } else {
            self.next_vblank_line(mmio);
        }
        true
    }
}

} // verus!
