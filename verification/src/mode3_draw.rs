//! Mode 3: putting pixels on the screen, and the line's end.

use vstd::prelude::*;

use crate::color::shade_intensity;
use crate::fifo::BgPixel;
use crate::mmio::Mmio;
use crate::power::stat_with_mode;
use crate::regs::LCDCFlags;
use crate::state::{Clk, Ppu, PpuView, State, Win, M0};

verus! {

impl PpuView {
    /// The next pixel: a stray blank one where it is due, else the front of the
    /// queue.
    pub open spec fn take_pixel(self) -> (PpuView, Option<BgPixel>) {
        if self.win.insert_bg_pixel {
            (
                PpuView {
                    win: Win {
                        insert_bg_pixel: false,
                        win_being_fetched: false,
                        ..self.win
                    },
                    ..self
                },
                Some(BgPixel { color: 0, attrs: 0 }),
            )
        } else {
            let (fetcher, p) = self.fetcher.pop();
            match p {
                Some(v) => (
                    PpuView {
                        fetcher,
                        win: Win { win_being_fetched: false, ..self.win },
                        ..self
                    },
                    Some(v),
                ),
                None => (self, None),
            }
        }
    }

    /// The index of the pixel being drawn in the picture.
    pub open spec fn pixel_at(self, m: Mmio) -> int {
        m.ly * 160 + self.x
    }

    /// Note of the background index that a column shows.
    pub open spec fn note_bg(self, idx: u8, won: bool) -> PpuView {
        PpuView {
            hist: self.hist.with_bg_idx(
                self.x,
                if won { idx as i8 } else { (-1int) as i8 },
            ),
            ..self
        }
    }

    #[verifier::opaque]
    pub open spec fn plot_color(self, m: Mmio, p: BgPixel) -> PpuView {
        let rgb = self.mix_color(m, p.color, p.attrs, self.x, m.ly, self.bgen_at(self.x));
        let s = self.record_pixel(m.ly, p.color, rgb);
        PpuView { frames: s.frames.with_rgb(self.pixel_at(m), rgb), ..s }
    }

    #[verifier::opaque]
    pub open spec fn plot_compat(self, m: Mmio, p: BgPixel) -> PpuView {
        let on = self.bgen_at(self.x);
        let rgb = self.mix_compat(m, p.color, self.x, m.ly, on);
        let won = on && rgb == self.compat_bg_color(m, if on { p.color } else { 0 });
        let s = self.record_pixel(m.ly, p.color, rgb).note_bg(p.color, won);
        PpuView { frames: s.frames.with_rgb(self.pixel_at(m), rgb), ..s }
    }

    #[verifier::opaque]
    pub open spec fn plot_mono(self, m: Mmio, p: BgPixel) -> PpuView {
        let on = self.bgen_at(self.x);
        let shade = self.mix_mono(m, p.color, self.x, m.ly, on);
        let won = on && shade == self.palette_color(m, p.color, self.x);
        let v = shade_intensity(shade);
        let s = self.note_bg(p.color, won).record_pixel(m.ly, p.color, (v, v, v));
        PpuView { frames: s.frames.with_shade(self.pixel_at(m), shade), ..s }
    }

    pub open spec fn plot_pixel(self, m: Mmio, p: BgPixel) -> PpuView {
        if m.cgb_features {
            self.plot_color(m, p)
        } else if self.is_cgb_compat_dmg(m) {
            self.plot_compat(m, p)
        } else {
            self.plot_mono(m, p)
        }
    }

    /// One pixel is drawn; `false`, and nothing done, where there is none.
    #[verifier::opaque]
    pub open spec fn draw_fifo_pixel(self, m: Mmio) -> (PpuView, bool) {
        let (s, p) = self.take_pixel();
        match p {
            None => (s, false),
            Some(p) => (PpuView { x: (self.x + 1) as u8, ..s.plot_pixel(m, p) }, true),
        }
    }

    /// Pixels are drawn until the line or the queue ends.
    pub open spec fn flush_pixels(self, m: Mmio) -> PpuView
        decreases 160 - self.x,
    {
        if self.x >= 160 {
            self
        } else {
            let (s, drawn) = self.draw_fifo_pixel(m);
            if drawn { PpuView { x: (self.x + 1) as u8, ..s }.flush_pixels(m) } else { s }
        }
    }

    /// A DMG window at column 166 starts at the end of its line, for the line
    /// below.
    #[verifier::opaque]
    pub open spec fn wxa6_lineend(self, m: Mmio, is_cgb: bool) -> PpuView {
        let on = self.lcdc_has(LCDCFlags::WindowDisplayEnable);
        let reached = self.win.window_y_triggered || (self.latch.wy2 == m.ly && on);
        let fresh = !self.win.win_draw_start && !self.win.win_draw_started && on;
        if self.win.wxa6_lineend_applied || is_cgb || self.clk.first_line_after_enable || m.wx
            != 166 {
            self
        } else {
            PpuView {
                win: Win {
                    wxa6_lineend_applied: true,
                    win_draw_start: self.win.win_draw_start || reached,
                    win_draw_started: self.win.win_draw_started || (reached && fresh),
                    win_y_pos: if reached && fresh {
                        self.win.win_y_pos.wrapping_add(1)
                    } else {
                        self.win.win_y_pos
                    },
                    ..self.win
                },
                ..self
            }
        }
    }

    /// Drawing of the line is over.
    pub open spec fn end_line(self, m: Mmio) -> PpuView {
        let s = self.wxa6_lineend(m, m.cgb_features);
        PpuView {
            frames: s.resolve_bgp_spikes(m),
            clk: Clk { fast_dots_left: 0, ..s.clk },
            state: State::HBlank,
            ..s
        }
    }

    /// Mode 0 shows in STAT, once a line.
    pub open spec fn report_mode0(self, m: Mmio) -> (PpuView, Mmio) {
        if self.m0.mode0_reported_this_line {
            (self, m)
        } else {
            (
                PpuView { m0: M0 { mode0_reported_this_line: true, ..self.m0 }, ..self },
                Mmio { stat: stat_with_mode(m.stat, 0), ..m },
            )
        }
    }

    /// The window is on the line, or was until it was switched off.
    pub open spec fn window_tail(self) -> bool {
        self.win.window_started_this_line || self.win.win_weoff_deferred_tail
    }

    /// The scheduled end of mode 3 has come: mode 0 shows, what is queued is
    /// drawn, and the line is over unless a window still has pixels to come.
    /// Tiles that met a train of writes are put in again then. `true` when the
    /// line is over.
    pub open spec fn reach_mode0(self, m: Mmio) -> (PpuView, Mmio, bool) {
        let due = match self.m0.m0_time_master {
            Some(m0t) => m.master_cc >= m0t,
            None => false,
        };
        if !due {
            (self, m, false)
        } else {
            let s = PpuView { m0: M0 { scheduled_mode0_dot: None, ..self.m0 }, ..self };
            let (t, n) = s.report_mode0(m);
            let u = t.flush_pixels(n);
            if u.window_tail() && u.x < 160 {
                (u, n, false)
            } else {
                (u.replot_trains(n).end_line(n), n, true)
            }
        }
    }

    /// A pixel is drawn, and after the last one the line is over where its end
    /// was not scheduled or has already been shown.
    #[verifier::opaque]
    pub open spec fn draw_and_end(self, m: Mmio) -> (PpuView, Mmio) {
        let (s, drawn) = self.draw_fifo_pixel(m);
        if !drawn || s.x != 160 {
            (s, m)
        } else if s.m0.m0_time_master is None {
            s.end_line(m).report_mode0(m)
        } else if s.window_tail() && s.m0.mode0_reported_this_line {
            (s.end_line(m), m)
        } else {
            (s, m)
        }
    }
}

impl Ppu {
    fn take_pixel(&mut self) -> (r: Option<BgPixel>)
        requires
            old(self).wf(),
        ensures
            final(self).wf(),
            (final(self)@, r) == old(self)@.take_pixel(),
            old(self)@.in_range() ==> final(self)@.in_range(),
            final(self)@.x == old(self)@.x,
            final(self)@.m0 == old(self)@.m0,
            r is None ==> final(self)@ == old(self)@,
    {
        if self.win.insert_bg_pixel {
            self.win = Win { insert_bg_pixel: false, win_being_fetched: false, ..self.win };
            return Some(BgPixel { color: 0, attrs: 0 });
        }
        match self.fetcher.pop_pixel() {
            Some(p) => {
                self.win = Win { win_being_fetched: false, ..self.win };
                Some(p)
            },
            None => None,
        }
    }

    fn plot_color(&mut self, mmio: &Mmio, p: BgPixel)
        requires
            old(self).wf(),
            old(self)@.x < 160,
            mmio.wf(),
            mmio.ly < 144,
        ensures
            final(self).wf(),
            final(self)@ == old(self)@.plot_color(*mmio, p),
    {
        reveal(PpuView::plot_color);
        let on = self.bgen_at(self.x);
        let rgb: (u8, u8, u8) = self.mix_background_and_sprites_color(
            mmio,
            p.color,
            p.attrs,
            self.x,
            mmio.ly,
            on,
        );
        let at: usize = mmio.ly as usize * 160 + self.x as usize;
        self.record_pixel_debug_event(mmio.ly, p.color, rgb);
        self.frames.put_rgb(at, rgb);
    }

    fn plot_compat(&mut self, mmio: &Mmio, p: BgPixel)
        requires
            old(self).wf(),
            old(self)@.in_range(),
            old(self)@.x < 160,
            mmio.wf(),
            mmio.ly < 144,
        ensures
            final(self).wf(),
            final(self)@ == old(self)@.plot_compat(*mmio, p),
    {
        reveal(PpuView::plot_compat);
        let on = self.bgen_at(self.x);
        let rgb: (u8, u8, u8) = self.mix_background_and_sprites_compat(
            mmio,
            p.color,
            self.x,
            mmio.ly,
            on,
        );
        let bg_only: (u8, u8, u8) = self.compat_bg_color(mmio, if on { p.color } else { 0 });
        let won = on && rgb.0 == bg_only.0 && rgb.1 == bg_only.1 && rgb.2 == bg_only.2;
        let at: usize = mmio.ly as usize * 160 + self.x as usize;
        self.record_pixel_debug_event(mmio.ly, p.color, rgb);
        self.hist.set_bg_idx(self.x, if won { p.color as i8 } else { -1 });
        self.frames.put_rgb(at, rgb);
    }

    fn plot_mono(&mut self, mmio: &Mmio, p: BgPixel)
        requires
            old(self).wf(),
            old(self)@.in_range(),
            old(self)@.x < 160,
            mmio.ly < 144,
        ensures
            final(self).wf(),
            final(self)@ == old(self)@.plot_mono(*mmio, p),
    {
        reveal(PpuView::plot_mono);
        let on = self.bgen_at(self.x);
        let shade: u8 = self.mix_background_and_sprites(mmio, p.color, self.x, mmio.ly, on);
        let won = on && shade == self.get_palette_color(mmio, p.color, self.x);
        let v: u8 = shade_intensity(shade);
        let at: usize = mmio.ly as usize * 160 + self.x as usize;
        self.hist.set_bg_idx(self.x, if won { p.color as i8 } else { -1 });
        self.record_pixel_debug_event(mmio.ly, p.color, (v, v, v));
        self.frames.put_shade(at, shade);
    }

    fn plot_pixel(&mut self, mmio: &Mmio, p: BgPixel)
        requires
            old(self).wf(),
            old(self)@.in_range(),
            old(self)@.x < 160,
            mmio.wf(),
            mmio.ly < 144,
        ensures
            final(self).wf(),
            final(self)@.in_range(),
            final(self)@ == old(self)@.plot_pixel(*mmio, p),
            final(self)@.x == old(self)@.x,
            final(self)@.m0 == old(self)@.m0,
    {
        proof {
            lemma_plot_keeps(self@, *mmio, p);
        }
        if mmio.is_cgb_features_enabled() {
            self.plot_color(mmio, p);
        } else if self.is_cgb_compat_dmg(mmio) {
            self.plot_compat(mmio, p);
        } else {
            self.plot_mono(mmio, p);
        }
    }

    pub(crate) fn draw_fifo_pixel(&mut self, mmio: &Mmio) -> (r: bool)
        requires
            old(self).wf(),
            old(self)@.in_range(),
            old(self)@.x < 160,
            mmio.wf(),
            mmio.ly < 144,
        ensures
            final(self).wf(),
            final(self)@.in_range(),
            (final(self)@, r) == old(self)@.draw_fifo_pixel(*mmio),
            r ==> final(self)@.x == old(self)@.x + 1,
            !r ==> final(self)@ == old(self)@,
            final(self)@.m0 == old(self)@.m0,
    {
        reveal(PpuView::draw_fifo_pixel);
        let p: BgPixel = match self.take_pixel() {
            Some(p) => p,
            None => {
                return false;
            },
        };
        self.plot_pixel(mmio, p);
        self.x = self.x + 1;
        true
    }

    fn flush_pixels(&mut self, mmio: &Mmio)
        requires
            old(self).wf(),
            old(self)@.in_range(),
            mmio.wf(),
            mmio.ly < 144,
        ensures
            final(self).wf(),
            final(self)@.in_range(),
            final(self)@ == old(self)@.flush_pixels(*mmio),
            final(self)@.m0 == old(self)@.m0,
    {
        while self.x < 160
            invariant
                self.wf(),
                self@.in_range(),
                mmio.wf(),
                mmio.ly < 144,
                self@.m0 == old(self)@.m0,
                self@.flush_pixels(*mmio) == old(self)@.flush_pixels(*mmio),
            decreases 160 - self.x,
        {
            let ghost before = self@;
            let drawn = self.draw_fifo_pixel(mmio);
            if !drawn {
                return;
            }
            assert(self@ == (PpuView { x: (before.x + 1) as u8, ..self@ }));
        }
    }

    pub(crate) fn apply_dmg_wxa6_lineend_windraw(&mut self, mmio: &Mmio, is_cgb: bool)
        requires
            old(self).wf(),
            old(self)@.in_range(),
        ensures
            final(self).wf(),
            final(self)@.in_range(),
            final(self)@ == old(self)@.wxa6_lineend(*mmio, is_cgb),
    {
        reveal(PpuView::wxa6_lineend);
        if self.win.wxa6_lineend_applied || is_cgb || self.clk.first_line_after_enable || mmio.wx
            != 166 {
            return;
        }
        let on = self.lcdc_has(LCDCFlags::WindowDisplayEnable);
        let reached = self.win.window_y_triggered || (self.latch.wy2 == mmio.ly && on);
        let fresh = !self.win.win_draw_start && !self.win.win_draw_started && on;
        let y: u8 = if reached && fresh {
            self.win.win_y_pos.wrapping_add(1)
        } else {
            self.win.win_y_pos
        };
        self.win = Win {
            wxa6_lineend_applied: true,
            win_draw_start: self.win.win_draw_start || reached,
            win_draw_started: self.win.win_draw_started || (reached && fresh),
            win_y_pos: y,
            ..self.win
        };
    }

    fn end_line(&mut self, mmio: &Mmio)
        requires
            old(self).wf(),
            old(self)@.in_range(),
            mmio.ly < 144,
        ensures
            final(self).wf(),
            final(self)@ == old(self)@.end_line(*mmio),
    {
        self.apply_dmg_wxa6_lineend_windraw(mmio, mmio.is_cgb_features_enabled());
        self.resolve_bgp_spikes(mmio);
        self.clk = Clk { fast_dots_left: 0, ..self.clk };
        self.state = State::HBlank;
    }

    fn report_mode0(&mut self, mmio: &mut Mmio)
        requires
            old(self).wf(),
        ensures
            final(self).wf(),
            (final(self)@, *final(mmio)) == old(self)@.report_mode0(*old(mmio)),
    {
        if !self.m0.mode0_reported_this_line {
            self.m0 = M0 { mode0_reported_this_line: true, ..self.m0 };
            Self::set_lcd_status_mode(mmio, 0);
        }
    }

    pub(crate) fn reach_mode0(&mut self, mmio: &mut Mmio) -> (r: bool)
        requires
            old(self).wf(),
            old(self)@.in_range(),
            old(mmio).wf(),
            old(mmio).ly < 144,
        ensures
            final(self).wf(),
            !r ==> final(self)@.in_range(),
            (final(self)@, *final(mmio), r) == old(self)@.reach_mode0(*old(mmio)),
            !r ==> old(self)@.m0.advances_to(final(self)@.m0, 0),
    {
        let due = match self.m0.m0_time_master {
            Some(m0t) => mmio.master_cc() >= m0t,
            None => false,
        };
        if !due {
            return false;
        }
        self.m0 = M0 { scheduled_mode0_dot: None, ..self.m0 };
        self.report_mode0(mmio);
        self.flush_pixels(mmio);
        if (self.win.window_started_this_line || self.win.win_weoff_deferred_tail) && self.x
            < 160 {
            return false;
        }
        self.replot_trains(mmio);
        self.end_line(mmio);
        true
    }

    pub(crate) fn draw_and_end(&mut self, mmio: &mut Mmio)
        requires
            old(self).wf(),
            old(self)@.in_range(),
            old(self)@.x < 160,
            old(mmio).wf(),
            old(mmio).ly < 144,
        ensures
            final(self).wf(),
            (final(self)@, *final(mmio)) == old(self)@.draw_and_end(*old(mmio)),
    {
        reveal(PpuView::draw_and_end);
        let drawn = self.draw_fifo_pixel(mmio);
        if !drawn || self.x != 160 {
            return;
        }
        if self.m0.m0_time_master.is_none() {
            self.end_line(mmio);
            self.report_mode0(mmio);
        } else if (self.win.window_started_this_line || self.win.win_weoff_deferred_tail)
            && self.m0.mode0_reported_this_line {
            self.end_line(mmio);
        }
    }
}

/// Plotting touches nothing but the picture, the line's records and the debug
/// records.
proof fn lemma_plot_keeps(s: PpuView, m: Mmio, p: BgPixel)
    ensures
        ({
            let t = s.plot_pixel(m, p);
            t == (PpuView { frames: t.frames, hist: t.hist, debug: t.debug, ..s })
        }),
{
    reveal(PpuView::plot_color);
    reveal(PpuView::plot_compat);
    reveal(PpuView::plot_mono);
}

/// Drawing a pixel moves the drawing position by one column; where there is no
/// pixel nothing happens at all.
pub proof fn law_drawing_moves_one_column(s: PpuView, m: Mmio)
    requires
        s.x < 160,
    ensures
        s.draw_fifo_pixel(m).1 ==> s.draw_fifo_pixel(m).0.x == s.x + 1,
        !s.draw_fifo_pixel(m).1 ==> s.draw_fifo_pixel(m).0 == s,
        s.draw_fifo_pixel(m).1 <==> s.win.insert_bg_pixel || s.fetcher.fifo.len() > 0,
{
    reveal(PpuView::draw_fifo_pixel);
}

/// A pixel changes no pixel of the picture but its own.
pub proof fn law_pixels_land_where_they_belong(s: PpuView, m: Mmio, i: int)
    requires
        s.wf(),
        s.x < 160,
        m.ly < 144,
        0 <= i < 23040,
        i != s.pixel_at(m),
    ensures
        ({
            let t = s.draw_fifo_pixel(m).0;
            &&& t.frames.fb_a[i] == s.frames.fb_a[i]
            &&& t.frames.color_fb_a[i * 3] == s.frames.color_fb_a[i * 3]
            &&& t.frames.color_fb_a[i * 3 + 1] == s.frames.color_fb_a[i * 3 + 1]
            &&& t.frames.color_fb_a[i * 3 + 2] == s.frames.color_fb_a[i * 3 + 2]
            &&& t.frames.fb_b == s.frames.fb_b
            &&& t.frames.color_fb_b == s.frames.color_fb_b
        }),
{
    reveal(PpuView::draw_fifo_pixel);
    reveal(PpuView::plot_color);
    reveal(PpuView::plot_compat);
    reveal(PpuView::plot_mono);
}

/// A window at column 166 is taken up for the line below once a line.
pub proof fn law_line_end_window_counts_once(s: PpuView, m: Mmio, is_cgb: bool)
    ensures
        s.wxa6_lineend(m, is_cgb).wxa6_lineend(m, is_cgb) == s.wxa6_lineend(m, is_cgb),
{
    reveal(PpuView::wxa6_lineend);
}

} // verus!
