//! The picture unit taken apart, to be saved, and put together again.

use vstd::prelude::*;

use crate::fetcher::{Fetcher, FetcherParts};
use crate::frames::{Frames, FramesParts};
use crate::history::{LineHist, LineHistParts};
use crate::journal::{DebugLog, DebugView, Journal, JournalParts, LcdcQueue, PendingLcdcEvent};
use crate::line_objs::{LineObjs, LineObjsParts};
use crate::mmio::Mmio;
use crate::oam_reader::{OamReader, OamReaderParts};
use crate::state::{
    BusGlitch, Clk, ColorCorrection, FrameOut, Latch, LcdcState, Objs, Plot, Ppu, PpuView,
    SpeedPhase, State, Win, M0, M3,
};

verus! {

/// A picture unit in its parts, without its debug records.
pub struct PpuParts {
    pub fetcher: FetcherParts,
    pub disabled: bool,
    pub state: State,
    pub ticks: u128,
    pub x: u8,
    pub oam_reader: OamReaderParts,
    pub line: LineObjsParts,
    pub objs: Objs,
    pub win: Win,
    pub clk: Clk,
    pub m3: M3,
    pub m0: M0,
    pub latch: Latch,
    pub speed: SpeedPhase,
    pub plot: Plot,
    pub hist: LineHistParts,
    pub out: FrameOut,
    pub frames: FramesParts,
    pub lcdc: LcdcState,
    pub pending: Vec<PendingLcdcEvent>,
    pub wg: BusGlitch,
    pub journal: JournalParts,
    pub cgb_color_conversion: ColorCorrection,
}

impl View for PpuParts {
    type V = PpuView;

    open spec fn view(&self) -> PpuView {
        PpuView {
            fetcher: self.fetcher@,
            disabled: self.disabled,
            state: self.state,
            ticks: self.ticks,
            x: self.x,
            oam_reader: self.oam_reader@,
            line: self.line@,
            objs: self.objs,
            win: self.win,
            clk: self.clk,
            m3: self.m3,
            m0: self.m0,
            latch: self.latch,
            speed: self.speed,
            plot: self.plot,
            hist: self.hist@,
            out: self.out,
            frames: self.frames@,
            debug: DebugView::empty(),
            lcdc: self.lcdc,
            pending: self.pending@,
            wg: self.wg,
            journal: self.journal@,
            cgb_color_conversion: self.cgb_color_conversion,
        }
    }
}

impl PpuView {
    /// What is saved of the state: all but the debug records, what the panel
    /// still shows, and what is only kept to save work.
    pub open spec fn saved(self) -> PpuView {
        PpuView {
            clk: Clk { fast_dots_left: 0, fast_hold: 0, sched_min: 0, ..self.clk },
            speed: SpeedPhase { write_subdot: 0, ..self.speed },
            out: FrameOut {
                last_drive_cc: 0,
                panel_holds_image: false,
                repeat_skip_pending: false,
                fetch_debug_events_enabled: false,
                ..self.out
            },
            debug: DebugView::empty(),
            ..self
        }
    }
}

impl Ppu {
    /// Takes the unit apart, to be saved.
    pub fn into_parts(self) -> (r: PpuParts)
        requires
            self.fetcher.queue_ok(),
        ensures
            r@ == self@.saved(),
    {
        PpuParts {
            fetcher: self.fetcher.into_parts(),
            disabled: self.disabled,
            state: self.state,
            ticks: self.ticks,
            x: self.x,
            oam_reader: self.oam_reader.into_parts(),
            line: self.line.into_parts(),
            objs: self.objs,
            win: self.win,
            clk: Clk { fast_dots_left: 0, fast_hold: 0, sched_min: 0, ..self.clk },
            m3: self.m3,
            m0: self.m0,
            latch: self.latch,
            speed: SpeedPhase { write_subdot: 0, ..self.speed },
            plot: self.plot,
            hist: self.hist.into_parts(),
            out: FrameOut {
                last_drive_cc: 0,
                panel_holds_image: false,
                repeat_skip_pending: false,
                fetch_debug_events_enabled: false,
                ..self.out
            },
            frames: self.frames.into_parts(),
            lcdc: self.lcdc,
            pending: self.pending.into_events(),
            wg: self.wg,
            journal: self.journal.into_parts(),
            cgb_color_conversion: self.cgb_color_conversion,
        }
    }

    /// Puts the unit together again; `None` where the parts are not those of a
    /// well-formed one.
    pub fn from_parts(parts: PpuParts) -> (r: Option<Self>)
        ensures
            r is Some <==> parts@.wf(),
            r matches Some(p) ==> p.wf() && p@ == parts@,
    {
        let p = Ppu {
            fetcher: Fetcher::from_parts(parts.fetcher),
            disabled: parts.disabled,
            state: parts.state,
            ticks: parts.ticks,
            x: parts.x,
            oam_reader: OamReader::from_parts(parts.oam_reader),
            line: LineObjs::from_parts(parts.line),
            objs: parts.objs,
            win: parts.win,
            clk: parts.clk,
            m3: parts.m3,
            m0: parts.m0,
            latch: parts.latch,
            speed: parts.speed,
            plot: parts.plot,
            hist: LineHist::from_parts(parts.hist),
            out: parts.out,
            frames: Frames::from_parts(parts.frames),
            debug: DebugLog::new(),
            lcdc: parts.lcdc,
            pending: LcdcQueue::from_events(parts.pending),
            wg: parts.wg,
            journal: Journal::from_parts(parts.journal),
            cgb_color_conversion: parts.cgb_color_conversion,
        };
        if p.is_well_formed() {
            Some(p)
        } else {
            None
        }
    }

    fn is_well_formed(&self) -> (r: bool)
        requires
            self.fetcher.queue_ok(),
        ensures
            r == self@.wf(),
    {
        self.fetcher.is_well_formed() && self.oam_reader.is_well_formed()
            && self.line.is_well_formed() && self.objs.next_sprite_fetch_index <= self.line.count()
            && self.frames.is_well_formed() && self.x <= 160 && self.clk.line_cycle < 456
            && self.clk.internal_ly_val < 154
    }
}

/// What is saved can be put together again and run on: it is well formed, its
/// clocks are bounded, and no event goes unnoticed. Saving it again changes
/// nothing.
pub proof fn law_saved_state_runs_on(s: PpuView, m: Mmio, b: int)
    requires
        s.wf(),
    ensures
        s.saved().wf(),
        s.clocked(m, b) ==> s.saved().clocked(m, b),
        s.on_screen(m) ==> s.saved().on_screen(m),
        s.saved().sched_sound(),
        s.saved().saved() == s.saved(),
{
}

/// A restored panel shows the pictures that were saved; only one that is blank
/// no longer holds on to its last picture.
pub proof fn law_saved_pictures_come_back(s: PpuView, m: Mmio)
    ensures
        s.saved().frames == s.frames,
        !s.panel_blank() || m.sgb is Some || !s.renders_color(m) ==> s.saved().get_frame(m).1
            == s.get_frame(m).1,
        !s.saved().panel_recently_driven(m),
{
}

} // verus!
