//! Handing pictures and records out, and what the debugger can look at.

use vstd::prelude::*;

use crate::fetcher::{FetcherDebugEvent, FetcherDebugEventKind};
use crate::frames::{copied, filled, filled_vec, FramesView};
use crate::journal::{
    pixel_views, DebugView, FetchDebugEvent, FetchDebugEventKind, PixelDebugEvent, PixelView,
};
use crate::mmio::Mmio;
use crate::regs::{dots_to_cycles, LCDCFlags, FRAMEBUFFER_SIZE};
use crate::sgb::{MaskMode, Sgb};
use crate::sgb_picture::{
    border_layers, composite_picture, covers_window, overlay_layer, screen_picture, FrameView,
    RenderedFrame, SgbBorderLayers,
};
use crate::state::{FrameOut, Ppu, PpuView, State};

verus! {

impl PpuView {
    /// The record of a fetcher step on the current dot.
    pub open spec fn fetch_event(self, e: FetcherDebugEvent, m: Mmio) -> FetchDebugEvent {
        FetchDebugEvent {
            kind: match e.kind {
                FetcherDebugEventKind::TileNumber => FetchDebugEventKind::TileNumber,
                FetcherDebugEventKind::TileDataLow => FetchDebugEventKind::TileDataLow,
                FetcherDebugEventKind::TileDataHigh => FetchDebugEventKind::TileDataHigh,
                FetcherDebugEventKind::PushToFifo => FetchDebugEventKind::PushToFifo,
            },
            ppu_ticks: self.ticks,
            x: self.x,
            ly: m.ly,
            fifo_size: e.fifo_size,
            tile_index: e.tile_index,
            tile_num: e.tile_num,
            tile_attributes: e.tile_attributes,
            tile_line: e.tile_line,
            addr: e.addr,
            value: e.value,
            lcdc: e.lcdc,
            tile_index_is_tile_data: e.tile_index_is_tile_data,
            fetching_window: e.fetching_window,
        }
    }

    /// Records a fetcher step, if records are asked for.
    pub open spec fn record_fetch(self, e: FetcherDebugEvent, m: Mmio) -> PpuView {
        if self.out.fetch_debug_events_enabled {
            PpuView {
                debug: DebugView {
                    fetches: self.debug.fetches.push(self.fetch_event(e, m)),
                    ..self.debug
                },
                ..self
            }
        } else {
            self
        }
    }

    /// Records a drawn pixel, if records are asked for.
    pub open spec fn record_pixel(self, ly: u8, bg_pixel_idx: u8, rgb: (u8, u8, u8)) -> PpuView {
        if self.out.fetch_debug_events_enabled {
            PpuView {
                debug: DebugView {
                    pixels: self.debug.pixels.push(
                        PixelView {
                            ppu_ticks: self.ticks,
                            x: self.x,
                            ly,
                            bg_pixel_idx,
                            rgb,
                            lcdc: self.lcdc.reg,
                        },
                    ),
                    ..self.debug
                },
                ..self
            }
        } else {
            self
        }
    }

    /// The panel still shows its last picture: it was driven within a frame
    /// and the time its charge lasts.
    pub open spec fn panel_recently_driven(self, m: Mmio) -> bool {
        let margin = if m.is_agb() { 2991int } else { 1820 };
        self.out.panel_holds_image && m.master_cc.wrapping_sub(self.out.last_drive_cc)
            <= dots_to_cycles(144 * 456 + margin, m.double_speed)
    }

    /// The panel has nothing to show yet: it is off or has just been switched
    /// on.
    pub open spec fn panel_blank(self) -> bool {
        self.disabled || self.out.frames_since_enable < 2
    }

    /// The picture that `get_frame` hands out, and what it leaves behind.
    pub open spec fn get_frame(self, m: Mmio) -> (PpuView, FrameView) {
        let s = PpuView { out: FrameOut { have_frame: false, ..self.out }, ..self };
        if self.renders_color(m) {
            if m.sgb is None && self.panel_blank() && !self.panel_recently_driven(m) {
                (s, FrameView::Color(filled((FRAMEBUFFER_SIZE * 3) as nat, 0xFF)))
            } else {
                (s, FrameView::Color(self.frames.color_fb_b))
            }
        } else {
            match m.sgb {
                Some(sgb) => {
                    let frames = FramesView {
                        sgb_freeze_fb: if sgb.mask != MaskMode::Freeze {
                            None
                        } else {
                            match self.frames.sgb_freeze_fb {
                                Some(f) => Some(f),
                                None => Some(self.frames.fb_b),
                            }
                        },
                        ..self.frames
                    };
                    (PpuView { frames, ..s }, sgb.frame(frames.sgb_source()))
                },
                None => if self.panel_blank() {
                    (s, FrameView::Monochrome(filled(FRAMEBUFFER_SIZE as nat, 0)))
                } else {
                    (s, FrameView::Monochrome(self.frames.fb_b))
                },
            }
        }
    }

    /// The shades on the panel.
    pub open spec fn presented_shades(self, m: Mmio) -> Seq<u8> {
        match m.sgb {
            Some(sgb) => match sgb.frame(self.frames.sgb_source()) {
                FrameView::Monochrome(v) => v,
                FrameView::Color(_) => self.frames.fb_b,
            },
            None => if self.panel_blank() {
                filled(FRAMEBUFFER_SIZE as nat, 0)
            } else {
                self.frames.fb_b
            },
        }
    }

    /// STOP leaves the panel without a drive: it fades, to black in colour
    /// unless it is caught while pixels are put out, to blank in shades.
    pub open spec fn stop_mode_panel(self, m: Mmio) -> PpuView {
        if self.disabled || !self.lcdc_has(LCDCFlags::DisplayEnable) {
            self
        } else if self.renders_color(m) {
            if self.state == State::PixelTransfer {
                self
            } else {
                PpuView {
                    frames: FramesView {
                        color_fb_b: filled(self.frames.color_fb_b.len(), 0),
                        ..self.frames
                    },
                    ..self
                }
            }
        } else {
            PpuView {
                frames: FramesView { fb_b: filled(self.frames.fb_b.len(), 0), ..self.frames },
                ..self
            }
        }
    }

    /// The OAM row that a stray read meets: the first one in the line's first
    /// dots.
    pub open spec fn oam_bug_mode2_row_read(self) -> Option<u8> {
        match self.oam_bug_mode2_row() {
            None => None,
            Some(row) => Some(if self.clk.line_cycle < 6 { 0u8 } else { row }),
        }
    }

    /// The OAM row that the scan is on, where a stray access corrupts it.
    pub open spec fn oam_bug_mode2_row(self) -> Option<u8> {
        if self.disabled || !self.lcdc_has(LCDCFlags::DisplayEnable) || self.state
            != State::OAMSearch || self.clk.line_cycle + 4 >= 80 {
            None
        } else {
            Some(((self.clk.line_cycle + 4) / 4) as u8)
        }
    }
}

impl Ppu {
    /// The picture unit's clock.
    pub fn abs_cc(&self) -> (r: u64)
        ensures
            r == self@.clk.abs_cc,
    {
        self.clk.abs_cc
    }

    pub fn render_carry_skew(&self) -> (r: i64)
        ensures
            r == self@.speed.render_carry_skew_cc,
    {
        self.speed.render_carry_skew_cc
    }

    /// Turns debug records on or off; turning them off drops those not taken.
    pub fn set_fetch_debug_events_enabled(&mut self, enabled: bool)
        ensures
            final(self)@ == (PpuView {
                out: FrameOut { fetch_debug_events_enabled: enabled, ..old(self)@.out },
                debug: if enabled { old(self)@.debug } else { DebugView::empty() },
                ..old(self)@
            }),
            old(self).wf() ==> final(self).wf(),
    {
        self.out = FrameOut { fetch_debug_events_enabled: enabled, ..self.out };
        if !enabled {
            self.debug = crate::journal::DebugLog::new();
        }
    }

    /// Takes the fetch records.
    pub fn take_fetch_debug_events(&mut self) -> (r: Vec<FetchDebugEvent>)
        ensures
            r@ == old(self)@.debug.fetches,
            final(self)@ == (PpuView {
                debug: DebugView { fetches: Seq::empty(), ..old(self)@.debug },
                ..old(self)@
            }),
            old(self).wf() ==> final(self).wf(),
    {
        self.debug.take_fetches()
    }

    /// Takes the pixel records.
    pub fn take_pixel_debug_events(&mut self) -> (r: Vec<PixelDebugEvent>)
        ensures
            pixel_views(r@) == old(self)@.debug.pixels,
            final(self)@ == (PpuView {
                debug: DebugView { pixels: Seq::empty(), ..old(self)@.debug },
                ..old(self)@
            }),
            old(self).wf() ==> final(self).wf(),
    {
        self.debug.take_pixels()
    }

    pub(crate) fn record_fetch_debug_event(&mut self, event: FetcherDebugEvent, mmio: &Mmio)
        requires
            old(self).wf(),
        ensures
            final(self).wf(),
            final(self)@ == old(self)@.record_fetch(event, *mmio),
    {
        if !self.out.fetch_debug_events_enabled {
            return;
        }
        self.record_fetch_debug_event_slow(event, mmio);
    }

    fn record_fetch_debug_event_slow(&mut self, event: FetcherDebugEvent, mmio: &Mmio)
        requires
            old(self).wf(),
        ensures
            final(self).wf(),
            final(self)@ == (PpuView {
                debug: DebugView {
                    fetches: old(self)@.debug.fetches.push(old(self)@.fetch_event(event, *mmio)),
                    ..old(self)@.debug
                },
                ..old(self)@
            }),
    {
        let kind = match event.kind {
            FetcherDebugEventKind::TileNumber => FetchDebugEventKind::TileNumber,
            FetcherDebugEventKind::TileDataLow => FetchDebugEventKind::TileDataLow,
            FetcherDebugEventKind::TileDataHigh => FetchDebugEventKind::TileDataHigh,
            FetcherDebugEventKind::PushToFifo => FetchDebugEventKind::PushToFifo,
        };
        let e = FetchDebugEvent {
            kind,
            ppu_ticks: self.ticks,
            x: self.x,
            ly: mmio.ly,
            fifo_size: event.fifo_size,
            tile_index: event.tile_index,
            tile_num: event.tile_num,
            tile_attributes: event.tile_attributes,
            tile_line: event.tile_line,
            addr: event.addr,
            value: event.value,
            lcdc: event.lcdc,
            tile_index_is_tile_data: event.tile_index_is_tile_data,
            fetching_window: event.fetching_window,
        };
        self.debug.push_fetch(e);
    }

    pub(crate) fn record_pixel_debug_event(&mut self, ly: u8, bg_pixel_idx: u8, rgb: (u8, u8, u8))
        requires
            old(self).wf(),
        ensures
            final(self).wf(),
            final(self)@ == old(self)@.record_pixel(ly, bg_pixel_idx, rgb),
    {
        if !self.out.fetch_debug_events_enabled {
            return;
        }
        let e = PixelDebugEvent {
            ppu_ticks: self.ticks,
            x: self.x,
            ly,
            bg_pixel_idx,
            rgb: [rgb.0, rgb.1, rgb.2],
            lcdc: self.lcdc.reg,
        };
        self.debug.push_pixel(e);
    }

    pub fn frame_ready(&self) -> (r: bool)
        ensures
            r == self@.out.have_frame,
    {
        self.out.have_frame
    }

    /// The shades of the last finished picture.
    pub fn dmg_shade_frame(&self) -> (r: &Vec<u8>)
        ensures
            r@ == self@.frames.fb_b,
    {
        self.frames.fb_b()
    }

    pub fn presented_dmg_shades(&self, mmio: &Mmio) -> (r: Vec<u8>)
        requires
            self@.wf(),
            mmio.wf(),
        ensures
            r@ == self@.presented_shades(*mmio),
    {
        if let Some(sgb) = &mmio.sgb {
            return match self.sgb_frame(sgb) {
                RenderedFrame::Monochrome(m) => m,
                RenderedFrame::Color(_) => copied(self.frames.fb_b()),
            };
        }
        if self.disabled || self.out.frames_since_enable < 2 {
            filled_vec(FRAMEBUFFER_SIZE, 0)
        } else {
            copied(self.frames.fb_b())
        }
    }

    pub fn enter_stop_mode_panel(&mut self, mmio: &Mmio)
        requires
            old(self).wf(),
        ensures
            final(self).wf(),
            final(self)@ == old(self)@.stop_mode_panel(*mmio),
    {
        if self.disabled || !self.lcdc_has(LCDCFlags::DisplayEnable) {
            return;
        }
        if self.renders_color(mmio) {
            if !self.is_in_pixel_transfer() {
                self.frames.fill_color_b(0x00);
            }
        } else {
            self.frames.fill_fb_b(0);
        }
    }

    pub fn panel_recently_driven(&self, mmio: &Mmio) -> (r: bool)
        ensures
            r == self@.panel_recently_driven(*mmio),
    {
        let margin: u64 = if mmio.is_agb() { 5982 / 2 } else { 3640 / 2 };
        let span: u64 = 144 * 456 + margin;
        let window: u64 = if mmio.is_double_speed_mode() { span * 2 } else { span };
        self.out.panel_holds_image && mmio.master_cc().wrapping_sub(self.out.last_drive_cc)
            <= window
    }

    /// Takes the picture that the panel shows.
    pub fn get_frame(&mut self, mmio: &Mmio) -> (r: RenderedFrame)
        requires
            old(self).wf(),
            mmio.wf(),
        ensures
            final(self).wf(),
            (final(self)@, r@) == old(self)@.get_frame(*mmio),
    {
        self.out = FrameOut { have_frame: false, ..self.out };
        let blank_panel = mmio.sgb.is_none() && (self.disabled || self.out.frames_since_enable < 2);
        if self.renders_color(mmio) {
            if blank_panel && !self.panel_recently_driven(mmio) {
                return RenderedFrame::Color(filled_vec(FRAMEBUFFER_SIZE * 3, 0xFF));
            }
            return RenderedFrame::Color(copied(self.frames.color_fb_b()));
        }
        if let Some(sgb) = &mmio.sgb {
            if sgb.mask == MaskMode::Freeze {
                self.frames.freeze();
            } else {
                self.frames.unfreeze();
            }
            return self.sgb_frame(sgb);
        }
        if blank_panel {
            return RenderedFrame::Monochrome(filled_vec(FRAMEBUFFER_SIZE, 0));
        }
        RenderedFrame::Monochrome(copied(self.frames.fb_b()))
    }

    fn sgb_frame(&self, sgb: &Sgb) -> (r: RenderedFrame)
        requires
            self@.wf(),
            sgb.wf(),
        ensures
            r@ == sgb.frame(self@.frames.sgb_source()),
    {
        screen_picture(sgb, self.frames.sgb_source())
    }

    /// The picture with the Super Game Boy's border around it, once there is
    /// one. `uncolorized` are the colours of the shades before any palette
    /// command.
    pub fn sgb_composited_frame(&self, mmio: &Mmio, uncolorized: [u16; 4]) -> (r: Option<Vec<u8>>)
        requires
            self@.wf(),
            mmio.wf(),
        ensures
            r is Some <==> (mmio.sgb is Some && mmio.sgb->0.border is Some),
            r matches Some(v) ==> v@ == mmio.sgb->0.composite(
                mmio.sgb->0.border->0,
                self@.frames.sgb_source(),
                uncolorized@,
            ),
    {
        match &mmio.sgb {
            Some(sgb) => match &sgb.border {
                Some(border) => Some(
                    composite_picture(sgb, border, self.frames.sgb_source(), &uncolorized),
                ),
                None => None,
            },
            None => None,
        }
    }

    /// The border alone, as layers around and over the screen.
    pub fn sgb_border_layers(&self, mmio: &Mmio) -> (r: Option<SgbBorderLayers>)
        requires
            mmio.wf(),
        ensures
            r is Some <==> (mmio.sgb is Some && mmio.sgb->0.border is Some),
            r matches Some(l) ==> {
                let border = mmio.sgb->0.border->0;
                &&& l.ring@ == mmio.sgb->0.ring(border)
                &&& l.overlay is Some <==> covers_window(border)
                &&& l.overlay matches Some(v) ==> v@ == overlay_layer(border)
            },
    {
        match &mmio.sgb {
            Some(sgb) => match &sgb.border {
                Some(border) => Some(border_layers(sgb, border)),
                None => None,
            },
            None => None,
        }
    }

    pub fn get_fetcher_pixel_buffer(&self) -> (r: [u8; 8])
        ensures
            r@ == self@.fetcher.pixel_buffer,
    {
        self.fetcher.get_pixel_buffer()
    }

    /// Pixels queued for drawing.
    pub fn get_fetcher_fifo_size(&self) -> (r: usize)
        requires
            self.wf(),
        ensures
            r == self@.fetcher.fifo.len(),
    {
        self.fetcher.get_fifo_size()
    }

    /// Tiles fetched since the line or the window started.
    pub fn get_fetcher_tile_index(&self) -> (r: u8)
        ensures
            r == self@.fetcher.tile_index,
    {
        self.fetcher.get_tile_index()
    }

    /// Dots that drawing still waits for an object.
    pub fn get_sprite_fetch_stall(&self) -> (r: u8)
        ensures
            r == self@.objs.sprite_fetch_stall,
    {
        self.objs.sprite_fetch_stall
    }

    pub fn is_disabled(&self) -> (r: bool)
        ensures
            r == self@.disabled,
    {
        self.disabled
    }

    pub fn get_state(&self) -> (r: &State)
        ensures
            *r == self@.state,
    {
        &self.state
    }

    pub fn get_ticks(&self) -> (r: u128)
        ensures
            r == self@.ticks,
    {
        self.ticks
    }

    pub fn is_lcd_disabled(&self) -> (r: bool)
        ensures
            r == self@.disabled,
    {
        self.disabled
    }

    pub fn oam_bug_mode2_row(&self) -> (r: Option<u8>)
        requires
            self@.wf(),
        ensures
            r == self@.oam_bug_mode2_row(),
    {
        if self.disabled || !self.lcdc_has(LCDCFlags::DisplayEnable) {
            return None;
        }
        if self.state != State::OAMSearch {
            return None;
        }
        let dot: u32 = self.clk.line_cycle + 4;
        if dot >= 80 {
            return None;
        }
        Some((dot / 4) as u8)
    }

    /// The same for a read, which finds the first row for longer.
    pub fn oam_bug_mode2_row_read(&self) -> (r: Option<u8>)
        requires
            self@.wf(),
        ensures
            r == self@.oam_bug_mode2_row_read(),
            r == match self@.oam_bug_mode2_row() {
                None => None,
                Some(row) => Some(
                    if self@.clk.line_cycle < 6 {
                        0u8
                    } else {
                        row
                    },
                ),
            },
    {
        match self.oam_bug_mode2_row() {
            None => None,
            Some(base) => {
                if self.clk.line_cycle < 6 {
                    return Some(0);
                }
                Some(base)
            },
        }
    }

    pub fn is_in_pixel_transfer(&self) -> (r: bool)
        ensures
            r == (!self@.disabled && self@.state == State::PixelTransfer),
    {
        !self.disabled && self.state == State::PixelTransfer
    }

    pub fn in_pixel_transfer(&self) -> (r: bool)
        ensures
            r == (self@.state == State::PixelTransfer),
    {
        self.state == State::PixelTransfer
    }

    pub fn is_on_rendering_line(&self) -> (r: bool)
        ensures
            r == (!self@.disabled && self@.lcdc_has(LCDCFlags::DisplayEnable)
                && self@.clk.internal_ly_val < 144 && self@.state != State::VBlank),
    {
        !self.disabled && self.lcdc_has(LCDCFlags::DisplayEnable) && self.clk.internal_ly_val < 144
            && self.state != State::VBlank
    }

    /// Pixels drawn of the line.
    pub fn get_x(&self) -> (r: u8)
        ensures
            r == self@.x,
    {
        self.x
    }

    pub fn has_frame(&self) -> (r: bool)
        ensures
            r == self@.out.have_frame,
    {
        self.out.have_frame
    }

    pub fn get_sprites_on_line_count(&self) -> (r: usize)
        ensures
            r == self@.line.sprites.len(),
    {
        self.line.count()
    }
}

/// Taking a picture takes the note that one is ready, and nothing that is
/// drawn; taking it again gives the same picture.
pub proof fn law_taking_a_frame(s: PpuView, m: Mmio)
    ensures
        !s.get_frame(m).0.out.have_frame,
        s.get_frame(m).0.frames.fb_b == s.frames.fb_b,
        s.get_frame(m).0.frames.color_fb_b == s.frames.color_fb_b,
        s.get_frame(m).0.get_frame(m) == s.get_frame(m),
{
}

/// Off, or in the first frame after switching on, the panel is blank: white in
/// shades; in colour it keeps its last picture for as long as its charge lasts.
pub proof fn law_blank_panel(s: PpuView, m: Mmio)
    requires
        m.sgb is None,
        s.panel_blank(),
    ensures
        !s.renders_color(m) ==> s.get_frame(m).1 == FrameView::Monochrome(
            filled(FRAMEBUFFER_SIZE as nat, 0),
        ),
        s.renders_color(m) && s.panel_recently_driven(m) ==> s.get_frame(m).1
            == FrameView::Color(s.frames.color_fb_b),
        s.renders_color(m) && !s.panel_recently_driven(m) ==> s.get_frame(m).1
            == FrameView::Color(filled((FRAMEBUFFER_SIZE * 3) as nat, 0xFF)),
{
}

/// While the mask freezes the screen, what is drawn behind it does not show.
pub proof fn law_frozen_screen_stays(s: PpuView, t: PpuView, m: Mmio)
    requires
        s.frames.wf(),
        s.frames.sgb_freeze_fb matches Some(f) ==> f.len() == FRAMEBUFFER_SIZE,
        m.sgb matches Some(sgb) && sgb.mask == MaskMode::Freeze,
        !s.renders_color(m),
        t.frames.sgb_freeze_fb == s.get_frame(m).0.frames.sgb_freeze_fb,
    ensures
        t.get_frame(m).1 == s.get_frame(m).1,
        t.get_frame(m).0.frames.sgb_freeze_fb == t.frames.sgb_freeze_fb,
{
}

/// Nothing is recorded unless records are asked for.
pub proof fn law_records_only_on_request(
    s: PpuView,
    e: FetcherDebugEvent,
    m: Mmio,
    ly: u8,
    idx: u8,
    rgb: (u8, u8, u8),
)
    requires
        !s.out.fetch_debug_events_enabled,
    ensures
        s.record_fetch(e, m) == s,
        s.record_pixel(ly, idx, rgb) == s,
{
}

/// Recording does not change the picture or anything else but the records.
pub proof fn law_records_change_nothing_else(
    s: PpuView,
    e: FetcherDebugEvent,
    m: Mmio,
    ly: u8,
    idx: u8,
    rgb: (u8, u8, u8),
)
    ensures
        s.record_fetch(e, m) == (PpuView { debug: s.record_fetch(e, m).debug, ..s }),
        s.record_pixel(ly, idx, rgb) == (PpuView {
            debug: s.record_pixel(ly, idx, rgb).debug,
            ..s
        }),
{
}

} // verus!
