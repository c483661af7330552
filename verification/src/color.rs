//! Shades and colours.

use vstd::prelude::*;

use crate::history::{col_value, dot_value};
use crate::mmio::{AgbCurve, Mmio};
use crate::state::{ColorCorrection, Ppu, PpuView};

verus! {

/// A five-bit channel stretched to eight bits.
#[verifier::allow_in_spec]
pub fn expand5(c: u16) -> u8
    requires
        c < 32,
    returns
        (c * 255 / 31) as u8,
{
    assert(c * 255 / 31 <= 255) by (nonlinear_arith)
        requires
            c < 32,
    ;
    (c * 255 / 31) as u8
}

/// Red, green and blue of a 15-bit colour.
#[verifier::allow_in_spec]
pub fn rgb555_channels(color: u16) -> (u16, u16, u16)
    returns
        (color % 32, (color / 32) % 32, (color / 1024) % 32),
{
    (color % 32, (color / 32) % 32, (color / 1024) % 32)
}

/// A 15-bit colour stretched to 24 bits.
pub open spec fn rgb888(color: u16) -> (u8, u8, u8) {
    let (r, g, b) = rgb555_channels(color);
    (expand5(r), expand5(g), expand5(b))
}

pub fn rgb555_to_rgb888(color: u16) -> (r: (u8, u8, u8))
    ensures
        r == rgb888(color),
{
    let (r, g, b): (u16, u16, u16) = rgb555_channels(color);
    (expand5(r), expand5(g), expand5(b))
}

/// How a CGB panel shows a colour: the channels bleed into each other.
pub open spec fn lcd_rgb(color: u16) -> (u8, u8, u8) {
    let (r, g, b) = rgb555_channels(color);
    (
        ((r * 13 + g * 2 + b) / 2) as u8,
        ((g * 3 + b) * 2) as u8,
        ((r * 3 + g * 2 + b * 11) / 2) as u8,
    )
}

/// A colour as it comes out of the palette memory's two bytes.
pub open spec fn cgb_rgb(
    conversion: ColorCorrection,
    low: u8,
    high: u8,
    agb: Option<AgbCurve>,
) -> (u8, u8, u8) {
    let word = (high * 256 + low) as u16;
    match (conversion, agb) {
        (ColorCorrection::Linear, _) => rgb888(word),
        (ColorCorrection::Lcd, Some(curve)) => {
            let c = curve.table@[word as int % 32768];
            (c[0], c[1], c[2])
        },
        (ColorCorrection::Lcd, None) => lcd_rgb(word),
    }
}

/// The shade that a palette gives colour index `idx`.
#[verifier::allow_in_spec]
pub fn bgp_shade(bgp: u8, idx: u8) -> u8
    returns
        match idx {
            0 => bgp % 4,
            1 => (bgp / 4) % 4,
            2 => (bgp / 16) % 4,
            3 => (bgp / 64) % 4,
            _ => 0u8,
        },
{
    match idx {
        0 => bgp % 4,
        1 => (bgp / 4) % 4,
        2 => (bgp / 16) % 4,
        3 => (bgp / 64) % 4,
        _ => 0,
    }
}

/// The same for an object palette, whose index 0 is transparent.
#[verifier::allow_in_spec]
pub fn obp_shade(obp: u8, idx: u8) -> u8
    returns
        match idx {
            1 => (obp / 4) % 4,
            2 => (obp / 16) % 4,
            3 => (obp / 64) % 4,
            _ => 0u8,
        },
{
    match idx {
        1 => (obp / 4) % 4,
        2 => (obp / 16) % 4,
        3 => (obp / 64) % 4,
        _ => 0,
    }
}

/// Shade 0 as white down to shade 3 as black.
#[verifier::allow_in_spec]
pub fn shade_intensity(shade: u8) -> u8
    returns
        match shade {
            0 => 255u8,
            1 => 170,
            2 => 85,
            _ => 0,
        },
{
    match shade {
        0 => 255,
        1 => 170,
        2 => 85,
        _ => 0,
    }
}

impl PpuView {
    /// A DMG cartridge on CGB hardware, coloured by the boot palettes.
    pub open spec fn is_cgb_compat_dmg(self, m: Mmio) -> bool {
        m.is_cgb() && !m.is_cgb_features_enabled()
    }

    pub open spec fn renders_color(self, m: Mmio) -> bool {
        m.is_cgb_features_enabled() || self.is_cgb_compat_dmg(m)
    }

    /// The background shade of colour index `idx` in column `sx`.
    pub open spec fn palette_color(self, m: Mmio, idx: u8, sx: u8) -> u8 {
        bgp_shade(
            if m.is_cgb() {
                col_value(self.hist.bgp, sx as u64, self.plot.bgp_delayed)
            } else {
                self.plot.bgp_delayed
            },
            idx,
        )
    }

    pub open spec fn palette_color_at_tick(self, idx: u8, pop_tick: u128) -> u8 {
        bgp_shade(dot_value(self.hist.bgp_dot, pop_tick, self.plot.bgp_delayed), idx)
    }

    /// The object shade of colour index `idx` in column `sx`.
    pub open spec fn sprite_palette_color(self, idx: u8, palette: bool, sx: u8) -> u8 {
        obp_shade(
            if palette {
                col_value(self.hist.obp1, sx as u64, self.plot.obp1_delayed)
            } else {
                col_value(self.hist.obp0, sx as u64, self.plot.obp0_delayed)
            },
            idx,
        )
    }

    pub open spec fn dmg_sprite_palette_shade(
        self,
        idx: u8,
        palette: bool,
        pop_tick: u128,
    ) -> u8 {
        obp_shade(
            if palette {
                dot_value(self.hist.obp1_dot, pop_tick, self.plot.obp1_delayed)
            } else {
                dot_value(self.hist.obp0_dot, pop_tick, self.plot.obp0_delayed)
            },
            idx,
        )
    }

    pub open spec fn cgb_color(self, m: Mmio, bytes: (u8, u8)) -> (u8, u8, u8) {
        cgb_rgb(self.cgb_color_conversion, bytes.0, bytes.1, m.agb_curve)
    }

    pub open spec fn cgb_bg_color(self, m: Mmio, palette: u8, color: u8, sx: u8) -> (u8, u8, u8) {
        if !m.is_cgb_features_enabled() {
            let v = shade_intensity(self.palette_color(m, color, sx));
            (v, v, v)
        } else {
            self.cgb_color(m, m.read_bg_palette_data(palette, color))
        }
    }

    pub open spec fn cgb_obj_color(self, m: Mmio, palette: u8, color: u8, sx: u8) -> (u8, u8, u8) {
        if color == 0 {
            (0, 0, 0)
        } else if !m.is_cgb_features_enabled() {
            let shade = self.sprite_palette_color(color, palette != 0, sx);
            let v = if shade == 0 { 0u8 } else { shade_intensity(shade) };
            (v, v, v)
        } else {
            self.cgb_color(m, m.read_obj_palette_data(palette, color))
        }
    }

    /// The background colour of a DMG cartridge on CGB hardware.
    pub open spec fn compat_bg_color(self, m: Mmio, idx: u8) -> (u8, u8, u8) {
        self.cgb_color(
            m,
            m.read_bg_palette_data(0, self.palette_color_at_tick(idx, self.ticks)),
        )
    }
}

impl Ppu {
    pub fn is_cgb_compat_dmg(&self, mmio: &Mmio) -> (r: bool)
        ensures
            r == self@.is_cgb_compat_dmg(*mmio),
    {
        mmio.is_cgb() && !mmio.is_cgb_features_enabled()
    }

    pub fn renders_color(&self, mmio: &Mmio) -> (r: bool)
        ensures
            r == self@.renders_color(*mmio),
    {
        mmio.is_cgb_features_enabled() || self.is_cgb_compat_dmg(mmio)
    }

    pub fn get_palette_color(&self, mmio: &Mmio, idx: u8, sx: u8) -> (r: u8)
        ensures
            r == self@.palette_color(*mmio, idx, sx),
    {
        let bgp: u8 = if mmio.is_cgb() {
            self.hist.bgp_at(sx, self.plot.bgp_delayed)
        } else {
            self.plot.bgp_delayed
        };
        bgp_shade(bgp, idx)
    }

    pub fn get_palette_color_at_tick(&self, idx: u8, pop_tick: u128) -> (r: u8)
        ensures
            r == self@.palette_color_at_tick(idx, pop_tick),
    {
        let bgp: u8 = self.hist.bgp_at_tick(pop_tick, self.plot.bgp_delayed);
        bgp_shade(bgp, idx)
    }

    pub fn get_sprite_palette_color(&self, idx: u8, palette: bool, sx: u8) -> (r: u8)
        ensures
            r == self@.sprite_palette_color(idx, palette, sx),
    {
        if idx == 0 {
            return 0;
        }
        let fallback: u8 = if palette { self.plot.obp1_delayed } else { self.plot.obp0_delayed };
        let obp: u8 = self.hist.obp_at(palette, sx, fallback);
        obp_shade(obp, idx)
    }

    pub fn dmg_sprite_palette_shade(&self, idx: u8, palette: bool, pop_tick: u128) -> (r: u8)
        ensures
            r == self@.dmg_sprite_palette_shade(idx, palette, pop_tick),
    {
        if idx == 0 {
            return 0;
        }
        let fallback: u8 = if palette { self.plot.obp1_delayed } else { self.plot.obp0_delayed };
        let obp: u8 = self.hist.obp_at_tick(palette, pop_tick, fallback);
        obp_shade(obp, idx)
    }

    /// A palette memory colour as the panel shows it; `agb` is the panel's
    /// curve on an AGB.
    pub fn cgb_color_to_rgb(
        &self,
        low_byte: u8,
        high_byte: u8,
        agb: &Option<AgbCurve>,
    ) -> (r: (u8, u8, u8))
        requires
            agb matches Some(c) ==> c.wf(),
        ensures
            r == cgb_rgb(self@.cgb_color_conversion, low_byte, high_byte, *agb),
    {
        let color_word: u16 = high_byte as u16 * 256 + low_byte as u16;
        let (r, g, b): (u16, u16, u16) = rgb555_channels(color_word);
        match self.cgb_color_conversion {
            ColorCorrection::Linear => (expand5(r), expand5(g), expand5(b)),
            ColorCorrection::Lcd => match agb {
                Some(curve) => {
                    let c: [u8; 3] = curve.table[(color_word % 32768) as usize];
                    (c[0], c[1], c[2])
                },
                None => (
                    ((r * 13 + g * 2 + b) / 2) as u8,
                    ((g * 3 + b) * 2) as u8,
                    ((r * 3 + g * 2 + b * 11) / 2) as u8,
                ),
            },
        }
    }

    pub fn get_cgb_bg_color(&self, mmio: &Mmio, palette_idx: u8, color_idx: u8, sx: u8) -> (r: (
        u8,
        u8,
        u8,
    ))
        requires
            mmio.wf(),
        ensures
            r == self@.cgb_bg_color(*mmio, palette_idx, color_idx, sx),
    {
        if !mmio.is_cgb_features_enabled() {
            let intensity: u8 = shade_intensity(self.get_palette_color(mmio, color_idx, sx));
            return (intensity, intensity, intensity);
        }
        let (low_byte, high_byte): (u8, u8) = mmio.read_bg_palette_data(palette_idx, color_idx);
        self.cgb_color_to_rgb(low_byte, high_byte, &mmio.agb_curve)
    }

    pub fn get_cgb_obj_color(&self, mmio: &Mmio, palette_idx: u8, color_idx: u8, sx: u8) -> (r: (
        u8,
        u8,
        u8,
    ))
        requires
            mmio.wf(),
        ensures
            r == self@.cgb_obj_color(*mmio, palette_idx, color_idx, sx),
    {
        if color_idx == 0 {
            return (0, 0, 0);
        }
        if !mmio.is_cgb_features_enabled() {
            let mono_color: u8 = self.get_sprite_palette_color(color_idx, palette_idx != 0, sx);
            let intensity: u8 = if mono_color == 0 { 0 } else { shade_intensity(mono_color) };
            return (intensity, intensity, intensity);
        }
        let (low_byte, high_byte): (u8, u8) = mmio.read_obj_palette_data(palette_idx, color_idx);
        self.cgb_color_to_rgb(low_byte, high_byte, &mmio.agb_curve)
    }

    pub fn compat_bg_color(&self, mmio: &Mmio, bg_pixel_idx: u8) -> (r: (u8, u8, u8))
        requires
            mmio.wf(),
        ensures
            r == self@.compat_bg_color(*mmio, bg_pixel_idx),
    {
        let bg_shade: u8 = self.get_palette_color_at_tick(bg_pixel_idx, self.ticks);
        let (lo, hi): (u8, u8) = mmio.read_bg_palette_data(0, bg_shade);
        self.cgb_color_to_rgb(lo, hi, &mmio.agb_curve)
    }
}

/// Shades are two bits wide, and an object's index 0 has none.
pub proof fn law_shades_are_two_bits(palette: u8, idx: u8)
    ensures
        bgp_shade(palette, idx) < 4,
        obp_shade(palette, idx) < 4,
        obp_shade(palette, 0) == 0,
        0 < idx ==> obp_shade(palette, idx) == bgp_shade(palette, idx),
{
}

/// The stretch keeps black and white, and brighter stays brighter.
pub proof fn law_expand5_is_monotone(a: u16, b: u16)
    requires
        a < b < 32,
    ensures
        expand5(0) == 0,
        expand5(31) == 255,
        expand5(a) < expand5(b),
{
    assert(a * 255 / 31 < b * 255 / 31) by (nonlinear_arith)
        requires
            a + 1 <= b,
    ;
    assert(b * 255 / 31 <= 255) by (nonlinear_arith)
        requires
            b < 32,
    ;
}

} // verus!
