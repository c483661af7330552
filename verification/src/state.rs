//! The picture unit's state, group by group, and its mathematical model.

use vstd::prelude::*;

use crate::fetcher::{Fetcher, FetcherView};
use crate::frames::{Frames, FramesView};
use crate::history::{HistView, LineHist};
use crate::journal::{DebugLog, DebugView, Journal, JournalView, LcdcQueue, PendingLcdcEvent};
use crate::line_objs::{LineObjs, LineObjsView};
use crate::oam_reader::{OamReader, OamReaderView};
use crate::objects::SPRITE_TILE_NONE;
use crate::regs::{lcdc_has, signed, LCDCFlags, CLOCK_LIMIT, DISABLED_TIME};

verus! {

/// The mode of the current line.
#[derive(Clone, Copy, Debug, PartialEq, Eq, Structural)]
pub enum State {
    OAMSearch,
    PixelTransfer,
    HBlank,
    VBlank,
}

/// How CGB colours are shown.
#[derive(Clone, Copy, Debug, PartialEq, Eq, Structural)]
pub enum ColorCorrection {
    Linear,
    Lcd,
}

impl Default for ColorCorrection {
    fn default() -> (r: Self)
        ensures
            r == ColorCorrection::Linear,
    {
        ColorCorrection::Linear
    }
}

/// What speed switches left behind in the dot phase.
#[derive(Clone, Copy, Debug, PartialEq, Eq, Structural)]
pub struct SpeedPhase {
    pub lytime_no_plus1: bool,
    pub ssds_mode3_ly_advance: bool,
    pub ssds_mode3_frames: u8,
    pub dsss_ly_phase_count: u32,
    pub dsss_ly_total_count: u32,
    pub sc_mode3_pullback_pending: bool,
    pub dsss_mode3_stop_count: u32,
    pub render_carry_skew_cc: i64,
    /// Half-dot of the register write being carried out, at double speed.
    pub write_subdot: u8,
}

/// The LYC interrupt's view of its registers.
#[derive(Clone, Copy, Debug, PartialEq, Eq, Structural)]
pub struct LycIrq {
    pub lyc_reg_src: u8,
    pub stat_reg_src: u8,
    pub lyc_reg: u8,
    pub stat_reg: u8,
    pub cgb: bool,
}

/// The mode interrupts' view of their registers.
#[derive(Clone, Copy, Debug, PartialEq, Eq, Structural)]
pub struct MStatIrq {
    pub lyc_reg: u8,
    pub stat_reg: u8,
}

/// Clocks, counters and scheduled events.
#[derive(Clone, Copy, Debug, PartialEq, Eq, Structural)]
pub struct Clk {
    /// The line after the LCD was switched on has not been armed yet.
    pub first_line_after_enable: bool,
    pub display_enable_inactive_until: u64,
    pub line_153_ly_zeroed: bool,
    /// Clock reading: the master clock less `p_now`.
    pub abs_cc: u64,
    pub p_now: u64,
    /// Dot in the line, and line in the frame.
    pub line_cycle: u32,
    pub internal_ly_val: u8,
    pub sched_lycirq: u64,
    pub sched_m1irq: u64,
    pub sched_m2irq: u64,
    pub sched_m0irq: u64,
    pub sched_oneshot_statirq: u64,
    /// Mode-3 dots left on which nothing but drawing can happen.
    pub fast_dots_left: u32,
    pub fast_hold: u8,
    /// No event is scheduled before this; 0 when not known.
    pub sched_min: u64,
    pub m1_vblank_fired: bool,
    pub l154_vblank_glitch_window: bool,
    pub lyc_irq: LycIrq,
    pub mstat_irq: MStatIrq,
    pub stat_reg_committed: u8,
}

/// The window bit of LCDC on the last five dots, the present one first.
#[derive(Clone, Copy, Debug, PartialEq, Eq, Structural)]
pub struct WeHist {
    pub d0: bool,
    pub d1: bool,
    pub d2: bool,
    pub d3: bool,
    pub d4: bool,
}

/// A window start that waits for the next dot to confirm it.
#[derive(Clone, Copy, Debug, PartialEq, Eq, Structural)]
pub struct WxTrigger {
    pub dot: u128,
    pub wx: u8,
}

/// The window.
#[derive(Clone, Copy, Debug, PartialEq, Eq, Structural)]
pub struct Win {
    /// The window's line counter; 0xFF before its first line.
    pub win_y_pos: u8,
    pub win_draw_start: bool,
    pub win_draw_started_at_x0: bool,
    pub win_draw_started: bool,
    /// LY has met WY in this frame.
    pub window_y_triggered: bool,
    pub window_started_this_line: bool,
    pub win_weoff_deferred_tail: bool,
    pub win_start_dot: Option<u128>,
    pub predicted_win_start_dot: Option<u128>,
    pub win_wx_penalty_resolved: bool,
    pub win_wx_enable_resolved: bool,
    pub wxa6_lineend_applied: bool,
    pub win_fetch_anchor: Option<u128>,
    /// Pixels of the first window tile still to be dropped.
    pub win_first_tile_chop: u8,
    pub win_being_fetched: bool,
    pub insert_bg_pixel: bool,
    pub we_dot_hist: WeHist,
    /// The columns at which the next two queued tiles start.
    pub we_glitch_tile_start_a: Option<u8>,
    pub we_glitch_tile_start_b: Option<u8>,
    pub we_glitch_discard_insert: bool,
    pub we_insert_suppressed: bool,
    pub win_kill_tap_late: bool,
    pub win_wx0_delayed: bool,
    pub dmg_wx_trigger_pending: Option<WxTrigger>,
}

/// Drawing state of the line's mode 3.
#[derive(Clone, Copy, Debug, PartialEq, Eq, Structural)]
pub struct M3 {
    pub m3_pixels_discarded: u8,
    /// Fine-scroll pixels to drop; negative until the scroll is known.
    pub m3_discard_target: i8,
    pub m3_arm_dot: u128,
    pub m3_arm_scx: u8,
    pub m3_arm_scx_full: i16,
    pub line_rendered_this_line: bool,
    pub subcc_scx_apply_cc: u64,
    pub subcc_scx_old: u8,
    pub subcc_scx_new: u8,
    pub subcc_rekey_armed: bool,
    pub prologue_rekey_armed: bool,
    pub subcc_revert_next_old: bool,
    pub ds_straddle_next_old: bool,
    pub subcc_last_tn_cc: u64,
    pub first_line_scx_override: Option<u8>,
}

/// The scheduled end of mode 3.
#[derive(Clone, Copy, Debug, PartialEq, Eq, Structural)]
pub struct M0 {
    pub scheduled_mode0_dot: Option<u128>,
    pub m0_time_master: Option<u64>,
    pub cgbp_block_start_cc: Option<u64>,
    pub mode0_reported_this_line: bool,
    pub m3_scheduled_wx: u8,
    pub m3_scheduled_win: bool,
}

/// Registers as the picture sees them, behind their write delays.
#[derive(Clone, Copy, Debug, PartialEq, Eq, Structural)]
pub struct Latch {
    pub wy2: u8,
    pub wy2_apply_cc: u64,
    pub wy2_pending: u8,
    pub wy1: u8,
    pub wy1_apply_cc: u64,
    pub wy1_pending: u8,
    pub wy_recheck_cc: u64,
    pub scy_delayed: u8,
    pub scy_apply_cc: u64,
    pub scy_pending: u8,
    pub scx_delayed: u8,
    pub scx_apply_cc: u64,
    pub scx_pending: u8,
    pub scx_prev_f1: u8,
    pub scx_f1_apply_cc: u64,
    pub scx_f1_new: u8,
}

/// Object scan and fetch.
#[derive(Clone, Copy, Debug, PartialEq, Eq, Structural)]
pub struct Objs {
    pub current_oam_sprite_index: usize,
    pub prev_dma_writing: bool,
    pub oam_reader_seeded: bool,
    pub next_sprite_fetch_index: usize,
    pub m3_sprite_prev_tile: i32,
    pub m3_last_sprite_commit_tick: u128,
    /// Dots the line still waits for an object fetch.
    pub sprite_fetch_stall: u8,
    pub pixel_transfer_warmup: u8,
    pub fetcher_cadence_tick: u8,
    pub scan_obj_size_large: bool,
    pub objsize_apply_cc: u64,
    pub objsize_prev_large: bool,
    pub objsize_new_large: bool,
}

/// A BGP write that came before the line's pixels.
#[derive(Clone, Copy, Debug, PartialEq, Eq, Structural)]
pub struct EarlyBgp {
    pub cc: u64,
    pub value: u8,
}

/// The palettes as drawing sees them.
#[derive(Clone, Copy, Debug, PartialEq, Eq, Structural)]
pub struct Plot {
    pub bgp_delayed: u8,
    pub obp0_delayed: u8,
    pub obp1_delayed: u8,
    pub bgp_defer_hold: u8,
    pub bgp_defer_countdown: u8,
    pub bgp_mode2_pending: Option<EarlyBgp>,
}

/// The panel's state.
#[derive(Clone, Copy, Debug, PartialEq, Eq, Structural)]
pub struct FrameOut {
    pub have_frame: bool,
    /// Finished frames since the LCD was switched on, as far as it matters.
    pub frames_since_enable: u8,
    /// When the panel was last driven.
    pub last_drive_cc: u64,
    pub panel_holds_image: bool,
    pub repeat_skip_pending: bool,
    pub fetch_debug_events_enabled: bool,
}

/// A write of the tile-data-select bit, with its commit clock.
#[derive(Clone, Copy, Debug, PartialEq, Eq, Structural)]
pub struct TdsCommit {
    pub cc: u64,
    pub new_val: u8,
    pub old_val: u8,
}

/// A write of the window-enable bit, with its commit clock.
#[derive(Clone, Copy, Debug, PartialEq, Eq, Structural)]
pub struct WeCommit {
    pub cc: u64,
    pub new_bit: bool,
    pub old_bit: bool,
}

/// LCDC as the picture sees it.
#[derive(Clone, Copy, Debug, PartialEq, Eq, Structural)]
pub struct LcdcState {
    pub reg: u8,
    pub cgb_tile_index_is_tile_data: bool,
    pub lcdc_b4_exact: Option<TdsCommit>,
    pub we_win_bit_exact: Option<WeCommit>,
}

/// The fetch grid that bus transitions are held against.
#[derive(Clone, Copy, Debug, PartialEq, Eq, Structural)]
pub struct BusGlitch {
    pub wg_cgb: bool,
    pub wg_anchor_cc: Option<u64>,
    pub wg_dpre: u64,
    pub bg_anchor_cc: Option<u64>,
    pub bg_anchor_dot: Option<u128>,
}

/// The picture unit.
#[derive(Clone)]
pub struct Ppu {
    pub fetcher: Fetcher,
    pub disabled: bool,
    pub state: State,
    /// Dot in the line, as drawing counts it.
    pub ticks: u128,
    /// Pixels drawn of the line.
    pub x: u8,
    pub oam_reader: OamReader,
    pub line: LineObjs,
    pub objs: Objs,
    pub win: Win,
    pub clk: Clk,
    pub m3: M3,
    pub m0: M0,
    pub latch: Latch,
    pub speed: SpeedPhase,
    pub plot: Plot,
    pub hist: LineHist,
    pub out: FrameOut,
    pub frames: Frames,
    pub debug: DebugLog,
    pub lcdc: LcdcState,
    pub pending: LcdcQueue,
    pub wg: BusGlitch,
    pub journal: Journal,
    pub cgb_color_conversion: ColorCorrection,
}

/// What a `Ppu` holds.
pub struct PpuView {
    pub fetcher: FetcherView,
    pub disabled: bool,
    pub state: State,
    pub ticks: u128,
    pub x: u8,
    pub oam_reader: OamReaderView,
    pub line: LineObjsView,
    pub objs: Objs,
    pub win: Win,
    pub clk: Clk,
    pub m3: M3,
    pub m0: M0,
    pub latch: Latch,
    pub speed: SpeedPhase,
    pub plot: Plot,
    pub hist: HistView,
    pub out: FrameOut,
    pub frames: FramesView,
    pub debug: DebugView,
    pub lcdc: LcdcState,
    pub pending: Seq<PendingLcdcEvent>,
    pub wg: BusGlitch,
    pub journal: JournalView,
    pub cgb_color_conversion: ColorCorrection,
}

impl View for Ppu {
    type V = PpuView;

    open spec fn view(&self) -> PpuView {
        PpuView {
            fetcher: self.fetcher@,
            disabled: self.disabled,
            state: self.state,
            ticks: self.ticks,
            x: self.x,
            oam_reader: self.oam_reader@,
            line: self.line@,
            objs: self.objs,
            win: self.win,
            clk: self.clk,
            m3: self.m3,
            m0: self.m0,
            latch: self.latch,
            speed: self.speed,
            plot: self.plot,
            hist: self.hist@,
            out: self.out,
            frames: self.frames@,
            debug: self.debug@,
            lcdc: self.lcdc,
            pending: self.pending@,
            wg: self.wg,
            journal: self.journal@,
            cgb_color_conversion: self.cgb_color_conversion,
        }
    }
}

/// An optional dot count not far beyond the clock limit.
pub open spec fn small_dot(d: Option<u128>) -> bool {
    d matches Some(v) ==> v < 2 * CLOCK_LIMIT
}

/// An optional clock reading below the clock limit.
pub open spec fn small_cc(d: Option<u64>) -> bool {
    d matches Some(v) ==> v < CLOCK_LIMIT
}

impl M0 {
    /// The end of mode 3, where scheduled, lies below `limit`.
    pub open spec fn below(self, limit: int) -> bool {
        &&& self.scheduled_mode0_dot matches Some(v) ==> v < limit
        &&& self.m0_time_master matches Some(v) ==> v < limit
    }

    /// `next` is this schedule moved on by at most `d`, or unscheduled.
    pub open spec fn advances_to(self, next: M0, d: int) -> bool {
        &&& next.scheduled_mode0_dot matches Some(v) ==> (self.scheduled_mode0_dot matches Some(
            u,
        ) && v <= u + d)
        &&& next.m0_time_master matches Some(v) ==> (self.m0_time_master matches Some(u) && v <= u
            + d)
        &&& next.cgbp_block_start_cc == self.cgbp_block_start_cc
    }
}

impl BusGlitch {
    pub open spec fn in_range(self) -> bool {
        &&& small_cc(self.wg_anchor_cc)
        &&& small_cc(self.bg_anchor_cc)
        &&& small_dot(self.bg_anchor_dot)
        &&& self.wg_dpre <= 13
    }
}

impl PpuView {
    /// Counters and buffers are the size they are meant to be.
    pub open spec fn wf(self) -> bool {
        &&& self.fetcher.wf()
        &&& self.oam_reader.wf()
        &&& self.line.wf()
        &&& self.objs.next_sprite_fetch_index <= self.line.sprites.len()
        &&& self.frames.wf()
        &&& self.x <= 160
        &&& self.clk.line_cycle < 456
        &&& self.clk.internal_ly_val < 154
    }

    /// Every clock reading is below the clock limit.
    pub open spec fn in_range(self) -> bool {
        &&& self.ticks < CLOCK_LIMIT
        &&& self.clk.abs_cc < CLOCK_LIMIT
        &&& -2 * CLOCK_LIMIT < signed(self.clk.p_now) < CLOCK_LIMIT
        &&& self.clk.display_enable_inactive_until < 2 * CLOCK_LIMIT
        &&& self.m3.m3_arm_dot < CLOCK_LIMIT
        &&& self.m3.subcc_last_tn_cc < CLOCK_LIMIT
        &&& self.m3.subcc_scx_apply_cc < CLOCK_LIMIT || self.m3.subcc_scx_apply_cc == DISABLED_TIME
        &&& self.m0.below(8 * CLOCK_LIMIT)
        &&& self.m0.cgbp_block_start_cc matches Some(v) ==> v < 8 * CLOCK_LIMIT
        &&& small_dot(self.win.win_start_dot)
        &&& small_dot(self.win.predicted_win_start_dot)
        &&& -0x1000_0000 < self.speed.render_carry_skew_cc < 0x1000_0000
        &&& self.wg.in_range()
    }

    /// Every clock reading is below `b`, up to small factors.
    pub open spec fn within(self, b: int) -> bool {
        &&& self.ticks < b
        &&& self.clk.abs_cc < b
        &&& -2 * b < signed(self.clk.p_now) < b
        &&& self.clk.display_enable_inactive_until < 2 * b
        &&& self.m3.m3_arm_dot < b
        &&& self.m3.subcc_last_tn_cc < b
        &&& self.m3.subcc_scx_apply_cc < b || self.m3.subcc_scx_apply_cc == DISABLED_TIME
        &&& self.m0.below(8 * b)
        &&& self.m0.cgbp_block_start_cc matches Some(v) ==> v < 8 * b
        &&& self.win.win_start_dot matches Some(v) ==> v < 2 * b
        &&& self.win.predicted_win_start_dot matches Some(v) ==> v < 2 * b
        &&& self.win.dmg_wx_trigger_pending matches Some(t) ==> t.dot < b
        &&& -0x1000_0000 < self.speed.render_carry_skew_cc < 0x1000_0000
        &&& self.wg.wg_anchor_cc matches Some(v) ==> v < b
        &&& self.wg.bg_anchor_cc matches Some(v) ==> v < b
        &&& self.wg.bg_anchor_dot matches Some(v) ==> v < 2 * b
        &&& self.wg.wg_dpre <= 13
    }

    pub open spec fn lcdc_has(self, f: LCDCFlags) -> bool {
        lcdc_has(self.lcdc.reg, f)
    }

    /// The state after power-on: LCD off, nothing drawn.
    pub open spec fn fresh() -> PpuView {
        PpuView {
            fetcher: FetcherView::fresh(),
            disabled: true,
            state: State::OAMSearch,
            ticks: 0,
            x: 0,
            oam_reader: OamReaderView::fresh(),
            line: LineObjsView::empty(),
            objs: Objs {
                current_oam_sprite_index: 0,
                prev_dma_writing: false,
                oam_reader_seeded: false,
                next_sprite_fetch_index: 0,
                m3_sprite_prev_tile: SPRITE_TILE_NONE,
                m3_last_sprite_commit_tick: 0,
                sprite_fetch_stall: 0,
                pixel_transfer_warmup: 0,
                fetcher_cadence_tick: 0,
                scan_obj_size_large: false,
                objsize_apply_cc: DISABLED_TIME,
                objsize_prev_large: false,
                objsize_new_large: false,
            },
            win: Win {
                win_y_pos: 0xFF,
                win_draw_start: false,
                win_draw_started_at_x0: false,
                win_draw_started: false,
                window_y_triggered: false,
                window_started_this_line: false,
                win_weoff_deferred_tail: false,
                win_start_dot: None,
                predicted_win_start_dot: None,
                win_wx_penalty_resolved: false,
                win_wx_enable_resolved: false,
                wxa6_lineend_applied: false,
                win_fetch_anchor: None,
                win_first_tile_chop: 0,
                win_being_fetched: false,
                insert_bg_pixel: false,
                we_dot_hist: WeHist { d0: true, d1: true, d2: true, d3: true, d4: true },
                we_glitch_tile_start_a: None,
                we_glitch_tile_start_b: None,
                we_glitch_discard_insert: false,
                we_insert_suppressed: false,
                win_kill_tap_late: false,
                win_wx0_delayed: false,
                dmg_wx_trigger_pending: None,
            },
            clk: Clk {
                first_line_after_enable: false,
                display_enable_inactive_until: 0,
                line_153_ly_zeroed: false,
                abs_cc: 0,
                p_now: DISABLED_TIME,
                line_cycle: 0,
                internal_ly_val: 0,
                sched_lycirq: DISABLED_TIME,
                sched_m1irq: DISABLED_TIME,
                sched_m2irq: DISABLED_TIME,
                sched_m0irq: DISABLED_TIME,
                sched_oneshot_statirq: DISABLED_TIME,
                fast_dots_left: 0,
                fast_hold: 0,
                sched_min: 0,
                m1_vblank_fired: false,
                l154_vblank_glitch_window: false,
                lyc_irq: LycIrq {
                    lyc_reg_src: 0,
                    stat_reg_src: 0,
                    lyc_reg: 0,
                    stat_reg: 0,
                    cgb: false,
                },
                mstat_irq: MStatIrq { lyc_reg: 0, stat_reg: 0 },
                stat_reg_committed: 0,
            },
            m3: M3 {
                m3_pixels_discarded: 0,
                m3_discard_target: (-1int) as i8,
                m3_arm_dot: 0,
                m3_arm_scx: 0,
                m3_arm_scx_full: (-1int) as i16,
                line_rendered_this_line: false,
                subcc_scx_apply_cc: DISABLED_TIME,
                subcc_scx_old: 0,
                subcc_scx_new: 0,
                subcc_rekey_armed: false,
                prologue_rekey_armed: false,
                subcc_revert_next_old: false,
                ds_straddle_next_old: false,
                subcc_last_tn_cc: 0,
                first_line_scx_override: None,
            },
            m0: M0 {
                scheduled_mode0_dot: None,
                m0_time_master: None,
                cgbp_block_start_cc: None,
                mode0_reported_this_line: false,
                m3_scheduled_wx: 0,
                m3_scheduled_win: false,
            },
            latch: Latch {
                wy2: 0,
                wy2_apply_cc: DISABLED_TIME,
                wy2_pending: 0,
                wy1: 0xFF,
                wy1_apply_cc: DISABLED_TIME,
                wy1_pending: 0,
                wy_recheck_cc: DISABLED_TIME,
                scy_delayed: 0,
                scy_apply_cc: DISABLED_TIME,
                scy_pending: 0,
                scx_delayed: 0,
                scx_apply_cc: DISABLED_TIME,
                scx_pending: 0,
                scx_prev_f1: 0,
                scx_f1_apply_cc: DISABLED_TIME,
                scx_f1_new: 0,
            },
            speed: SpeedPhase {
                lytime_no_plus1: false,
                ssds_mode3_ly_advance: false,
                ssds_mode3_frames: 0,
                dsss_ly_phase_count: 0,
                dsss_ly_total_count: 0,
                sc_mode3_pullback_pending: false,
                dsss_mode3_stop_count: 0,
                render_carry_skew_cc: 0,
                write_subdot: 0,
            },
            plot: Plot {
                bgp_delayed: 0,
                obp0_delayed: 0,
                obp1_delayed: 0,
                bgp_defer_hold: 0,
                bgp_defer_countdown: 0,
                bgp_mode2_pending: None,
            },
            hist: HistView::empty(),
            out: FrameOut {
                have_frame: false,
                frames_since_enable: 2,
                last_drive_cc: 0,
                panel_holds_image: false,
                repeat_skip_pending: false,
                fetch_debug_events_enabled: false,
            },
            frames: FramesView::blank(),
            debug: DebugView::empty(),
            lcdc: LcdcState {
                reg: 0,
                cgb_tile_index_is_tile_data: false,
                lcdc_b4_exact: None,
                we_win_bit_exact: None,
            },
            pending: Seq::empty(),
            wg: BusGlitch {
                wg_cgb: false,
                wg_anchor_cc: None,
                wg_dpre: 0,
                bg_anchor_cc: None,
                bg_anchor_dot: None,
            },
            journal: JournalView::empty(),
            cgb_color_conversion: ColorCorrection::Lcd,
        }
    }
}

impl Win {
    fn new() -> (r: Self)
        ensures
            r == PpuView::fresh().win,
    {
        Win {
            win_y_pos: 0xFF,
            win_draw_start: false,
            win_draw_started_at_x0: false,
            win_draw_started: false,
            window_y_triggered: false,
            window_started_this_line: false,
            win_weoff_deferred_tail: false,
            win_start_dot: None,
            predicted_win_start_dot: None,
            win_wx_penalty_resolved: false,
            win_wx_enable_resolved: false,
            wxa6_lineend_applied: false,
            win_fetch_anchor: None,
            win_first_tile_chop: 0,
            win_being_fetched: false,
            insert_bg_pixel: false,
            we_dot_hist: WeHist { d0: true, d1: true, d2: true, d3: true, d4: true },
            we_glitch_tile_start_a: None,
                we_glitch_tile_start_b: None,
            we_glitch_discard_insert: false,
            we_insert_suppressed: false,
            win_kill_tap_late: false,
            win_wx0_delayed: false,
            dmg_wx_trigger_pending: None,
        }
    }
}

impl Clk {
    fn new() -> (r: Self)
        ensures
            r == PpuView::fresh().clk,
    {
        Clk {
            first_line_after_enable: false,
            display_enable_inactive_until: 0,
            line_153_ly_zeroed: false,
            abs_cc: 0,
            p_now: DISABLED_TIME,
            line_cycle: 0,
            internal_ly_val: 0,
            sched_lycirq: DISABLED_TIME,
            sched_m1irq: DISABLED_TIME,
            sched_m2irq: DISABLED_TIME,
            sched_m0irq: DISABLED_TIME,
            sched_oneshot_statirq: DISABLED_TIME,
            fast_dots_left: 0,
            fast_hold: 0,
            sched_min: 0,
            m1_vblank_fired: false,
            l154_vblank_glitch_window: false,
            lyc_irq: LycIrq {
                lyc_reg_src: 0,
                stat_reg_src: 0,
                lyc_reg: 0,
                stat_reg: 0,
                cgb: false,
            },
            mstat_irq: MStatIrq { lyc_reg: 0, stat_reg: 0 },
            stat_reg_committed: 0,
        }
    }
}

impl M3 {
    fn new() -> (r: Self)
        ensures
            r == PpuView::fresh().m3,
    {
        M3 {
            m3_pixels_discarded: 0,
            m3_discard_target: -1,
            m3_arm_dot: 0,
            m3_arm_scx: 0,
            m3_arm_scx_full: -1,
            line_rendered_this_line: false,
            subcc_scx_apply_cc: DISABLED_TIME,
            subcc_scx_old: 0,
            subcc_scx_new: 0,
            subcc_rekey_armed: false,
            prologue_rekey_armed: false,
            subcc_revert_next_old: false,
            ds_straddle_next_old: false,
            subcc_last_tn_cc: 0,
            first_line_scx_override: None,
        }
    }
}

impl Latch {
    fn new() -> (r: Self)
        ensures
            r == PpuView::fresh().latch,
    {
        Latch {
            wy2: 0,
            wy2_apply_cc: DISABLED_TIME,
            wy2_pending: 0,
            wy1: 0xFF,
            wy1_apply_cc: DISABLED_TIME,
            wy1_pending: 0,
            wy_recheck_cc: DISABLED_TIME,
            scy_delayed: 0,
            scy_apply_cc: DISABLED_TIME,
            scy_pending: 0,
            scx_delayed: 0,
            scx_apply_cc: DISABLED_TIME,
            scx_pending: 0,
            scx_prev_f1: 0,
            scx_f1_apply_cc: DISABLED_TIME,
            scx_f1_new: 0,
        }
    }
}

impl Objs {
    fn new() -> (r: Self)
        ensures
            r == PpuView::fresh().objs,
    {
        Objs {
            current_oam_sprite_index: 0,
            prev_dma_writing: false,
            oam_reader_seeded: false,
            next_sprite_fetch_index: 0,
            m3_sprite_prev_tile: SPRITE_TILE_NONE,
            m3_last_sprite_commit_tick: 0,
            sprite_fetch_stall: 0,
            pixel_transfer_warmup: 0,
            fetcher_cadence_tick: 0,
            scan_obj_size_large: false,
            objsize_apply_cc: DISABLED_TIME,
            objsize_prev_large: false,
            objsize_new_large: false,
        }
    }
}

impl Default for Ppu {
    fn default() -> (r: Self)
        ensures
            r.wf(),
            r@ == PpuView::fresh(),
    {
        Self::new()
    }
}

impl Ppu {
    pub open spec fn wf(&self) -> bool {
        &&& self.fetcher.queue_ok()
        &&& self@.wf()
    }

    pub fn new() -> (r: Self)
        ensures
            r.wf(),
            r@ == PpuView::fresh(),
    {
        let r = Ppu {
            fetcher: Fetcher::new(),
            disabled: true,
            state: State::OAMSearch,
            ticks: 0,
            x: 0,
            oam_reader: OamReader::default(),
            line: LineObjs::new(),
            objs: Objs::new(),
            win: Win::new(),
            clk: Clk::new(),
            m3: M3::new(),
            m0: M0 {
                scheduled_mode0_dot: None,
                m0_time_master: None,
                cgbp_block_start_cc: None,
                mode0_reported_this_line: false,
                m3_scheduled_wx: 0,
                m3_scheduled_win: false,
            },
            latch: Latch::new(),
            speed: SpeedPhase {
                lytime_no_plus1: false,
                ssds_mode3_ly_advance: false,
                ssds_mode3_frames: 0,
                dsss_ly_phase_count: 0,
                dsss_ly_total_count: 0,
                sc_mode3_pullback_pending: false,
                dsss_mode3_stop_count: 0,
                render_carry_skew_cc: 0,
                write_subdot: 0,
            },
            plot: Plot {
                bgp_delayed: 0,
                obp0_delayed: 0,
                obp1_delayed: 0,
                bgp_defer_hold: 0,
                bgp_defer_countdown: 0,
                bgp_mode2_pending: None,
            },
            hist: LineHist::new(),
            out: FrameOut {
                have_frame: false,
                frames_since_enable: 2,
                last_drive_cc: 0,
                panel_holds_image: false,
                repeat_skip_pending: false,
                fetch_debug_events_enabled: false,
            },
            frames: Frames::new(),
            debug: DebugLog::new(),
            lcdc: LcdcState {
                reg: 0,
                cgb_tile_index_is_tile_data: false,
                lcdc_b4_exact: None,
                we_win_bit_exact: None,
            },
            pending: LcdcQueue::new(),
            wg: BusGlitch {
                wg_cgb: false,
                wg_anchor_cc: None,
                wg_dpre: 0,
                bg_anchor_cc: None,
                bg_anchor_dot: None,
            },
            journal: Journal::new(),
            cgb_color_conversion: ColorCorrection::Lcd,
        };
        r
    }

    /// Back to the power-on state.
    pub fn reset(&mut self)
        ensures
            final(self).wf(),
            final(self)@ == PpuView::fresh(),
    {
        *self = Self::new();
    }

    pub fn set_cgb_color_conversion(&mut self, conversion: ColorCorrection)
        ensures
            final(self)@ == (PpuView { cgb_color_conversion: conversion, ..old(self)@ }),
            old(self).wf() ==> final(self).wf(),
    {
        self.cgb_color_conversion = conversion;
    }

    pub fn cgb_color_conversion(&self) -> (r: ColorCorrection)
        ensures
            r == self@.cgb_color_conversion,
    {
        self.cgb_color_conversion
    }

    /// Whether an LCDC flag is set, as the picture sees it.
    pub fn lcdc_has(&self, f: LCDCFlags) -> (r: bool)
        ensures
            r == self@.lcdc_has(f),
    {
        lcdc_has(self.lcdc.reg, f)
    }
}

/// The power-on state is well-formed and its clocks are in range.
pub proof fn law_fresh_state_is_well_formed()
    ensures
        PpuView::fresh().wf(),
        PpuView::fresh().in_range(),
{
}

} // verus!
