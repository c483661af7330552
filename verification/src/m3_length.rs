//! How long mode 3 takes.

use vstd::prelude::*;

use crate::arith::imax;
use crate::line_objs::{has_x_within, sprite_xs};
use crate::mmio::Mmio;
use crate::objects::{ascending, sprite_tile_walk_cost, walk_cost};
use crate::regs::LCDCFlags;
use crate::state::{Ppu, PpuView, State, Win};

verus! {

/// Dots that a window start adds to mode 3.
pub const WIN_M3_PENALTY: i32 = 6;

impl PpuView {
    /// The window covers this line, if its bit is `win_en`.
    pub open spec fn window_y_active_with(self, m: Mmio, win_en: bool) -> bool {
        win_en && (self.win.window_y_triggered || self.latch.wy2 == m.ly)
    }

    pub open spec fn window_y_active(self, m: Mmio) -> bool {
        self.window_y_active_with(m, self.lcdc_has(LCDCFlags::WindowDisplayEnable))
    }

    /// The window covers this line and starts on the screen; column 166 counts
    /// only on CGB hardware.
    pub open spec fn window_will_start(self, m: Mmio) -> bool {
        self.window_y_active(m) && m.wx <= 166 && (m.is_cgb() || m.wx != 166)
    }

    /// Objects are fetched: always on CGB hardware, otherwise when switched on.
    pub open spec fn objects_cost(self, m: Mmio) -> bool {
        self.lcdc_has(LCDCFlags::SpriteDisplayEnable) || m.is_cgb()
    }

    pub open spec fn line_walk_cost(self, m: Mmio, scx: int, nwx: int, target_x: int) -> int {
        walk_cost(
            ascending(sprite_xs(self.line.sprites)),
            scx,
            nwx,
            target_x,
            self.objects_cost(m),
        )
    }

    /// On CGB at single speed, fine scroll 5 hides a dot of the window's start
    /// on a line without objects.
    pub open spec fn win_scx5_adjust(self, m: Mmio, is_cgb: bool, scx: int) -> int {
        if is_cgb && scx == 5 && self.line.sprites.len() == 0 && !m.double_speed {
            -1
        } else {
            0
        }
    }

    /// Dots until pixel `targetx` is out.
    pub open spec fn m3_length_to_target(self, m: Mmio, is_cgb: bool, targetx: int) -> int {
        let scx = (m.scx % 8) as int;
        let win = self.window_will_start(m) && m.wx < targetx;
        let window = if win { WIN_M3_PENALTY + self.win_scx5_adjust(m, is_cgb, scx) } else { 0 };
        let nwx = if win { m.wx as int } else { 0xFF };
        imax(
            0,
            scx + (if is_cgb { 0int } else { 1 }) + targetx + window + self.line_walk_cost(
                m,
                scx,
                nwx,
                targetx,
            ),
        )
    }

    /// The fine scroll that the line's length goes by.
    pub open spec fn length_scx(self, m: Mmio) -> int {
        (match self.m3.first_line_scx_override {
            Some(v) => v,
            None => m.scx,
        } % 8) as int
    }

    /// The length of the line's mode 3, and whether a window is in it.
    pub open spec fn m3_length_win(self, m: Mmio, is_cgb: bool) -> (int, bool) {
        let scx = self.length_scx(m);
        let win = self.window_will_start(m);
        let nwx = if win { m.wx as int } else { 0xFF };
        let window = if win {
            WIN_M3_PENALTY + (if nwx != 0 { self.win_scx5_adjust(m, is_cgb, scx) } else { 0 }) + (
            if nwx == 0 && scx > 0 { 1int } else { 0 })
        } else {
            0
        };
        (
            imax(
                0,
                scx + (if is_cgb { 0int } else { 1 }) + 167 + window + self.line_walk_cost(
                    m,
                    scx,
                    nwx,
                    167,
                ),
            ),
            win,
        )
    }

    pub open spec fn m3_length(self, m: Mmio, is_cgb: bool) -> int {
        self.m3_length_win(m, is_cgb).0
    }

    /// Extra dots of an object at X 0: the fine scroll, at most five.
    pub open spec fn sprite0_scx_extra(self, m: Mmio, is_cgb: bool) -> int {
        if !(self.lcdc_has(LCDCFlags::SpriteDisplayEnable) || is_cgb) || !has_x_within(
            self.line.sprites,
            0,
            0,
        ) {
            0
        } else if self.length_scx(m) > 5 {
            5
        } else {
            self.length_scx(m)
        }
    }
}

impl Ppu {
    pub fn window_y_active(&self, mmio: &Mmio) -> (r: bool)
        ensures
            r == self@.window_y_active(*mmio),
    {
        self.window_y_active_with(mmio, self.lcdc_has(LCDCFlags::WindowDisplayEnable))
    }

    pub fn window_y_active_with(&self, mmio: &Mmio, win_en: bool) -> (r: bool)
        ensures
            r == self@.window_y_active_with(*mmio, win_en),
    {
        if !win_en {
            return false;
        }
        if self.win.window_y_triggered {
            return true;
        }
        self.latch.wy2 == mmio.ly
    }

    pub fn window_will_start(&self, mmio: &Mmio) -> (r: bool)
        ensures
            r == self@.window_will_start(*mmio),
    {
        if !self.window_y_active(mmio) {
            return false;
        }
        let wx: u8 = mmio.wx;
        wx <= 166 && (mmio.is_cgb() || wx != 166)
    }

    pub fn compute_m3_length(&self, mmio: &Mmio, is_cgb: bool) -> (r: u128)
        requires
            self@.wf(),
        ensures
            r == self@.m3_length(*mmio, is_cgb),
            r < 1000,
    {
        let (len, _win): (u128, bool) = self.compute_m3_length_win(mmio, is_cgb);
        len
    }

    pub fn compute_m3_length_to_target(&self, mmio: &Mmio, is_cgb: bool, targetx: i32) -> (r: u128)
        requires
            self@.wf(),
            0 <= targetx < 0x1_0000,
        ensures
            r == self@.m3_length_to_target(*mmio, is_cgb, targetx as int),
            r < 0x2_0000,
    {
        let scx: i32 = (mmio.scx % 8) as i32;
        let mut cycles: i32 = scx + (if is_cgb { 0 } else { 1 });
        cycles += targetx;
        let mut nwx: i32 = 0xFF;
        if self.window_will_start(mmio) {
            let wx: i32 = mmio.wx as i32;
            if wx < targetx {
                nwx = wx;
                cycles += WIN_M3_PENALTY;
                if is_cgb && scx == 5 && self.line.count() == 0
                    && !mmio.is_double_speed_mode() {
                    cycles -= 1;
                }
            }
        }
        let obj_enabled = self.lcdc_has(LCDCFlags::SpriteDisplayEnable);
        let xs: Vec<i32> = self.line.sorted_xs();
        cycles += sprite_tile_walk_cost(
            xs.as_slice(),
            scx,
            nwx,
            targetx,
            obj_enabled || mmio.is_cgb(),
        );
        if cycles < 0 { 0 } else { cycles as u128 }
    }

    /// Dots between the mode-0 interrupt and the end of the line's drawing,
    /// beyond the last pixel's own.
    pub fn m0irq_xpos166_advance(&self, mmio: &Mmio, is_cgb: bool) -> (r: i64)
        requires
            self@.wf(),
        ensures
            r == imax(
                0,
                self@.m3_length_to_target(*mmio, is_cgb, 167) - self@.m3_length_to_target(
                    *mmio,
                    is_cgb,
                    166,
                ) - 1,
            ),
            0 <= r < 0x2_0000,
    {
        let len167: i64 = self.compute_m3_length_to_target(mmio, is_cgb, 167) as i64;
        let len166: i64 = self.compute_m3_length_to_target(mmio, is_cgb, 166) as i64;
        let d: i64 = len167 - len166 - 1;
        if d < 0 { 0 } else { d }
    }

    pub fn compute_m3_length_win(&self, mmio: &Mmio, is_cgb: bool) -> (r: (u128, bool))
        requires
            self@.wf(),
        ensures
            (r.0 as int, r.1) == self@.m3_length_win(*mmio, is_cgb),
            r.0 < 1000,
    {
        let scx_reg: u8 = match self.m3.first_line_scx_override {
            Some(v) => v,
            None => mmio.scx,
        };
        let scx: i32 = (scx_reg % 8) as i32;
        let mut cycles: i32 = scx + (if is_cgb { 0 } else { 1 });
        cycles += 167;
        let mut nwx: i32 = 0xFF;
        let mut win = false;
        if self.window_will_start(mmio) {
            nwx = mmio.wx as i32;
            cycles += WIN_M3_PENALTY;
            if is_cgb && scx == 5 && self.line.count() == 0 && nwx != 0
                && !mmio.is_double_speed_mode() {
                cycles -= 1;
            }
            if nwx == 0 && scx > 0 {
                cycles += 1;
            }
            win = true;
        }
        let obj_enabled = self.lcdc_has(LCDCFlags::SpriteDisplayEnable);
        let xs: Vec<i32> = self.line.sorted_xs();
        cycles += sprite_tile_walk_cost(xs.as_slice(), scx, nwx, 167, obj_enabled || mmio.is_cgb());
        (if cycles < 0 { 0 } else { cycles as u128 }, win)
    }

    pub fn sprite0_scx_extra(&self, mmio: &Mmio, is_cgb: bool) -> (r: i64)
        ensures
            r == self@.sprite0_scx_extra(*mmio, is_cgb),
            0 <= r <= 5,
    {
        let obj_enabled = self.lcdc_has(LCDCFlags::SpriteDisplayEnable);
        if !(obj_enabled || is_cgb) {
            return 0;
        }
        if !self.line.has_x_within(0, 0) {
            return 0;
        }
        let scx_reg: u8 = match self.m3.first_line_scx_override {
            Some(v) => v,
            None => mmio.scx,
        };
        let scx: i64 = (scx_reg % 8) as i64;
        if scx > 5 { 5 } else { scx }
    }

    fn wy_compare_enabled(&self) -> (r: bool)
        ensures
            r == self@.wy_compare_enabled(),
    {
        match self.lcdc.we_win_bit_exact {
            Some(w) if self.clk.abs_cc <= w.cc => w.old_bit,
            _ => self.lcdc_has(LCDCFlags::WindowDisplayEnable),
        }
    }

    fn wy_checkpoint(&self, mmio: &Mmio) -> (r: Option<u32>)
        ensures
            r is None <==> self@.wy_checkpoint(*mmio) is None,
            r matches Some(l) ==> self@.wy_checkpoint(*mmio) == Some(l as int),
    {
        let is_cgb = mmio.is_cgb_features_enabled();
        if mmio.ly == 0 && self.state == State::OAMSearch && self.ticks == (if is_cgb {
            2
        } else {
            1
        }) {
            return Some(0);
        }
        if self.clk.first_line_after_enable {
            return None;
        }
        if self.ticks == 450 {
            Some(mmio.ly as u32)
        } else if self.ticks == 454 {
            Some(mmio.ly as u32 + 1)
        } else {
            None
        }
    }

    /// Notes on which lines LY meets WY: at the start of line 0, and at two
    /// points near the end of every line. Once met, the window stays armed
    /// for the frame.
    pub(crate) fn update_window_y_latch(&mut self, mmio: &Mmio)
        requires
            old(self).wf(),
        ensures
            final(self).wf(),
            final(self)@ == old(self)@.update_window_y_latch(*mmio),
            old(self)@.in_range() ==> final(self)@.in_range(),
            final(self)@.state == old(self)@.state,
            final(self)@.disabled == old(self)@.disabled,
            final(self)@.m0 == old(self)@.m0,
    {
        reveal(PpuView::update_window_y_latch);
        if self.disabled || !self.wy_compare_enabled() {
            return;
        }
        if let Some(line) = self.wy_checkpoint(mmio) {
            if line == self.latch.wy1 as u32 {
                self.win = Win { window_y_triggered: true, ..self.win };
            }
        }
    }
}

impl PpuView {
    /// The window bit that the WY comparison goes by.
    pub open spec fn wy_compare_enabled(self) -> bool {
        match self.lcdc.we_win_bit_exact {
            Some(w) if self.clk.abs_cc <= w.cc => w.old_bit,
            _ => self.lcdc_has(LCDCFlags::WindowDisplayEnable),
        }
    }

    /// The line number that WY is compared with on this dot, if any.
    pub open spec fn wy_checkpoint(self, m: Mmio) -> Option<int> {
        if m.ly == 0 && self.state == State::OAMSearch && self.ticks == (if m.cgb_features {
            2u128
        } else {
            1
        }) {
            Some(0)
        } else if self.clk.first_line_after_enable {
            None
        } else if self.ticks == 450 {
            Some(m.ly as int)
        } else if self.ticks == 454 {
            Some(m.ly + 1)
        } else {
            None
        }
    }

    #[verifier::opaque]
    pub open spec fn update_window_y_latch(self, m: Mmio) -> PpuView {
        if !self.disabled && self.wy_compare_enabled() && self.wy_checkpoint(m) == Some(
            self.latch.wy1 as int,
        ) {
            PpuView {
                win: Win { window_y_triggered: true, ..self.win },
                ..self
            }
        } else {
            self
        }
    }
}

/// Once LY has met WY the window stays armed.
pub proof fn law_window_latch_is_sticky(s: PpuView, m: Mmio)
    requires
        s.win.window_y_triggered,
    ensures
        s.update_window_y_latch(m) == s,
{
    reveal(PpuView::update_window_y_latch);
}

/// Mode 3 is at least as long as the pixels it puts out, and ten objects and a
/// window do not make it twice as long.
pub proof fn law_m3_length_bounds(s: PpuView, m: Mmio, is_cgb: bool)
    requires
        s.line.sprites.len() <= 10,
    ensures
        167 + s.length_scx(m) <= s.m3_length(m, is_cgb) <= 167 + s.length_scx(m) + 8 + 110,
{
    let scx = s.length_scx(m);
    let xs = ascending(sprite_xs(s.line.sprites));
    let leq = |a: i32, b: i32| a <= b;
    let base = sprite_xs(s.line.sprites);
    base.lemma_sort_by_ensures(leq);
    assert forall|i: int| 0 <= i < xs.len() implies 0 <= #[trigger] xs[i] by {
        assert(xs.contains(xs[i]));
        assert(base.contains(xs[i]));
    }
    vstd::seq_lib::to_multiset_len(base);
    vstd::seq_lib::to_multiset_len(xs);
    let nwx = if s.window_will_start(m) { m.wx as int } else { 0xFF };
    crate::objects::law_walk_cost_bounds(xs, scx, nwx, 167, s.objects_cost(m));
}

} // verus!
