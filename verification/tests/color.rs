//! Colours of the CGB and AGB screens.

use rustyboi_ppu::color::{bgp_shade, expand5, obp_shade, rgb555_to_rgb888, shade_intensity};
use rustyboi_ppu::mmio::AgbCurve;
use rustyboi_ppu::{ColorCorrection, Ppu};

fn bytes(r: u16, g: u16, b: u16) -> (u8, u8) {
    let w = r | (g << 5) | (b << 10);
    ((w & 0xFF) as u8, (w >> 8) as u8)
}

fn agb_curve() -> Option<AgbCurve> {
    let linear = |c: u16| libm::pow(f64::from(c & 0x1F) / 31.0, 4.0);
    let channel = |mix: f64| {
        (libm::pow(mix / 255.0, 1.0 / 2.2) * (255.0 * 255.0 / 280.0)).round().clamp(0.0, 255.0)
            as u8
    };
    let table = (0..32768u16)
        .map(|word| {
            let (r, g, b) = (linear(word), linear(word >> 5), linear(word >> 10));
            [
                channel(50.0 * g + 240.0 * r),
                channel(30.0 * b + 230.0 * g + 10.0 * r),
                channel(220.0 * b + 10.0 * g + 50.0 * r),
            ]
        })
        .collect();
    Some(AgbCurve { table })
}

#[test]
fn rgb555_expands_endpoints_and_channels() {
    assert_eq!(rgb555_to_rgb888(0x0000), (0, 0, 0));
    assert_eq!(rgb555_to_rgb888(0x7FFF), (255, 255, 255));
    assert_eq!(rgb555_to_rgb888(0x001F), (255, 0, 0));
    assert_eq!(rgb555_to_rgb888(0x03E0), (0, 255, 0));
    assert_eq!(rgb555_to_rgb888(0x7C00), (0, 0, 255));
    assert_eq!(rgb555_to_rgb888(0x000F), (123, 0, 0));
}

#[test]
fn cgb_linear_matches_the_naive_expansion() {
    let mut ppu = Ppu::new();
    ppu.set_cgb_color_conversion(ColorCorrection::Linear);
    let (lo, hi) = bytes(31, 0, 0);
    assert_eq!(ppu.cgb_color_to_rgb(lo, hi, &None), (255, 0, 0));
    let (lo, hi) = bytes(31, 31, 31);
    assert_eq!(ppu.cgb_color_to_rgb(lo, hi, &None), (255, 255, 255));
}

#[test]
fn cgb_lcd_applies_the_correction_curve() {
    let mut ppu = Ppu::new();
    ppu.set_cgb_color_conversion(ColorCorrection::Lcd);
    let (lo, hi) = bytes(31, 31, 31);
    assert_eq!(ppu.cgb_color_to_rgb(lo, hi, &None), (248, 248, 248));
    let (lo, hi) = bytes(31, 0, 0);
    assert_eq!(ppu.cgb_color_to_rgb(lo, hi, &None), (201, 0, 46));
    let (lo, hi) = bytes(0, 0, 0);
    assert_eq!(ppu.cgb_color_to_rgb(lo, hi, &None), (0, 0, 0));
}

#[test]
fn agb_lcd_uses_the_gba_curve_only_on_agb() {
    let agb = agb_curve();
    let mut ppu = Ppu::new();
    ppu.set_cgb_color_conversion(ColorCorrection::Lcd);
    let (lo, hi) = bytes(31, 31, 31);
    assert_eq!(ppu.cgb_color_to_rgb(lo, hi, &agb), (246, 238, 242));
    let (lo, hi) = bytes(0, 0, 0);
    assert_eq!(ppu.cgb_color_to_rgb(lo, hi, &agb), (0, 0, 0));
    assert_ne!(
        ppu.cgb_color_to_rgb(bytes(31, 0, 0).0, bytes(31, 0, 0).1, &agb),
        ppu.cgb_color_to_rgb(bytes(31, 0, 0).0, bytes(31, 0, 0).1, &None),
    );
}

#[test]
fn top_bit_of_a_colour_word_is_ignored() {
    let agb = agb_curve();
    for conversion in [ColorCorrection::Linear, ColorCorrection::Lcd] {
        let mut ppu = Ppu::new();
        ppu.set_cgb_color_conversion(conversion);
        for curve in [&None, &agb] {
            assert_eq!(
                ppu.cgb_color_to_rgb(0x21, 0x84, curve),
                ppu.cgb_color_to_rgb(0x21, 0x04, curve)
            );
        }
    }
}

#[test]
fn linear_ignores_the_agb_curve() {
    let mut ppu = Ppu::new();
    ppu.set_cgb_color_conversion(ColorCorrection::Linear);
    let (lo, hi) = bytes(15, 31, 1);
    assert_eq!(ppu.cgb_color_to_rgb(lo, hi, &agb_curve()), (123, 255, 8));
}

#[test]
fn palettes_pick_shades_two_bits_at_a_time() {
    assert_eq!(bgp_shade(0b11_10_01_00, 0), 0);
    assert_eq!(bgp_shade(0b11_10_01_00, 3), 3);
    assert_eq!(bgp_shade(0b00_01_10_11, 0), 3);
    assert_eq!(bgp_shade(0b00_01_10_11, 2), 1);
    assert_eq!(obp_shade(0b11_10_01_00, 1), 1);
    assert_eq!(obp_shade(0b00_01_10_11, 3), 0);
    for palette in 0..=255u8 {
        for idx in 0..4u8 {
            assert!(bgp_shade(palette, idx) < 4 && obp_shade(palette, idx) < 4);
        }
    }
}

#[test]
fn shades_have_fixed_intensities() {
    assert_eq!(shade_intensity(0), 255);
    assert_eq!(shade_intensity(1), 170);
    assert_eq!(shade_intensity(2), 85);
    assert_eq!(shade_intensity(3), 0);
}

#[test]
fn expansion_never_reverses_two_levels() {
    for c in 0..31u16 {
        assert!(expand5(c) < expand5(c + 1));
    }
    assert_eq!(expand5(16), 131);
}
