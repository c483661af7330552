//! What is drawn: windows, objects and interrupts over whole frames.

use rustyboi_ppu::mmio::{InterruptFlag, Mmio};
use rustyboi_ppu::sgb_picture::RenderedFrame;
use rustyboi_ppu::{Ppu, State, BGP, LCD_CONTROL, LCD_STATUS, LYC, OBP0, OBP1, WX, WY};

fn dots(ppu: &mut Ppu, mmio: &mut Mmio, n: u32) {
    let cycles = if mmio.is_double_speed_mode() { 2 } else { 1 };
    for _ in 0..n {
        mmio.bulk_advance_idle(cycles);
        ppu.step(mmio);
    }
}

fn dmg(lcdc: u8) -> (Ppu, Mmio) {
    let mut mmio = Mmio::new();
    mmio.write(LCD_CONTROL, lcdc);
    mmio.write(BGP, 0xE4);
    mmio.write(OBP0, 0xE4);
    mmio.write(OBP1, 0x1B);
    // Tile 1 is solid colour 1, tile 2 solid colour 2, tile 3 solid colour 3.
    for row in 0..8u16 {
        mmio.write(0x8010 + 2 * row, 0xFF);
        mmio.write(0x8021 + 2 * row, 0xFF);
        mmio.write(0x8030 + 2 * row, 0xFF);
        mmio.write(0x8031 + 2 * row, 0xFF);
    }
    // Tile 4 has colour 1 on its top row and its left column.
    mmio.write(0x8040, 0xFF);
    for row in 1..8u16 {
        mmio.write(0x8040 + 2 * row, 0x80);
    }
    (Ppu::new(), mmio)
}

fn objects(mmio: &mut Mmio, list: &[[u8; 4]]) {
    for (i, o) in list.iter().enumerate() {
        mmio.oam[i * 4..i * 4 + 4].copy_from_slice(o);
    }
    mmio.oam_write_pending = true;
}

fn picture(ppu: &mut Ppu, mmio: &mut Mmio) -> Vec<u8> {
    dots(ppu, mmio, 3 * 70224);
    match ppu.get_frame(mmio) {
        RenderedFrame::Monochrome(fb) => fb,
        RenderedFrame::Color(_) => panic!("a DMG picture is monochrome"),
    }
}

fn at(fb: &[u8], x: usize, y: usize) -> u8 {
    fb[y * 160 + x]
}

fn irqs_in_a_frame(ppu: &mut Ppu, mmio: &mut Mmio, flag: InterruptFlag) -> u32 {
    mmio.irq = 0;
    let mut n = 0;
    for _ in 0..70224 {
        dots(ppu, mmio, 1);
        if mmio.irq & flag.mask() != 0 {
            n += 1;
            mmio.irq = 0;
        }
    }
    n
}

fn with_stat(cgb: bool, ds: bool, stat: u8, lyc: u8) -> (Ppu, Mmio) {
    let mut mmio = Mmio::new();
    mmio.set_cgb_features_enabled(cgb);
    mmio.double_speed = ds;
    mmio.write(LCD_CONTROL, 0x91);
    mmio.write(LYC, lyc);
    mmio.write(LCD_STATUS, stat);
    let mut ppu = Ppu::new();
    dots(&mut ppu, &mut mmio, 2 * 70224);
    (ppu, mmio)
}

#[test]
fn every_line_can_match_lyc_once_a_frame() {
    for (cgb, ds) in [(false, false), (true, false), (true, true)] {
        for lyc in [0, 1, 50, 143, 144, 153] {
            let (mut ppu, mut mmio) = with_stat(cgb, ds, 0x40, lyc);
            let n = irqs_in_a_frame(&mut ppu, &mut mmio, InterruptFlag::Lcd);
            assert_eq!(n, 1, "cgb {cgb} ds {ds} lyc {lyc}");
        }
        let (mut ppu, mut mmio) = with_stat(cgb, ds, 0x40, 154);
        assert_eq!(irqs_in_a_frame(&mut ppu, &mut mmio, InterruptFlag::Lcd), 0);
    }
}

#[test]
fn mode_interrupts_come_once_a_line_or_frame() {
    for (cgb, ds) in [(false, false), (true, false), (true, true)] {
        for (stat, n) in [(0x08, 144), (0x20, 144), (0x10, 1), (0x00, 0)] {
            let (mut ppu, mut mmio) = with_stat(cgb, ds, stat, 200);
            let got = irqs_in_a_frame(&mut ppu, &mut mmio, InterruptFlag::Lcd);
            assert_eq!(got, n, "cgb {cgb} ds {ds} stat {stat:#x}");
        }
        let (mut ppu, mut mmio) = with_stat(cgb, ds, 0, 200);
        assert_eq!(irqs_in_a_frame(&mut ppu, &mut mmio, InterruptFlag::VBlank), 1);
    }
}

#[test]
fn stat_shows_each_mode_for_its_time() {
    for (cgb, ds) in [(false, false), (true, false), (true, true)] {
        let (mut ppu, mut mmio) = with_stat(cgb, ds, 0, 200);
        let mut count = [0u32; 4];
        for _ in 0..70224 {
            dots(&mut ppu, &mut mmio, 1);
            count[usize::from(mmio.stat & 3)] += 1;
        }
        assert!((4500..4570).contains(&count[1]), "vertical blank {count:?}");
        assert!((144 * 78..144 * 86).contains(&count[2]), "scan {count:?}");
        assert!((144 * 168..144 * 178).contains(&count[3]), "drawing {count:?}");
    }
}

#[test]
fn the_window_keeps_its_own_line_count() {
    let (mut ppu, mut mmio) = dmg(0xF1);
    // Window rows of tile 4: its top row shows on every eighth window line.
    for i in 0..1024u16 {
        mmio.write(0x9C00 + i, 4);
    }
    mmio.write(WX, 7);
    mmio.write(WY, 20);
    ppu.on_wy_write(20, &mmio);
    let fb = picture(&mut ppu, &mut mmio);
    for y in 0..144 {
        let expected = if y >= 20 && (y - 20) % 8 == 0 { 1 } else { 0 };
        assert_eq!(at(&fb, 5, y), expected, "line {y}");
        assert_eq!(at(&fb, 8, y), u8::from(y >= 20), "line {y}");
    }
}

#[test]
fn the_window_starts_at_wx_minus_seven() {
    for wx in [7u8, 8, 20, 60, 100, 165] {
        let (mut ppu, mut mmio) = dmg(0xF1);
        for i in 0..1024u16 {
            mmio.write(0x9C00 + i, 1);
        }
        mmio.write(WX, wx);
        mmio.write(WY, 0);
        ppu.on_wy_write(0, &mmio);
        let fb = picture(&mut ppu, &mut mmio);
        for x in 0..160usize {
            let expected = u8::from(x + 7 >= usize::from(wx));
            assert_eq!(at(&fb, x, 100), expected, "wx {wx} column {x}");
        }
    }
}

#[test]
fn a_window_left_of_the_edge_is_cut() {
    for wx in 1..7u8 {
        let (mut ppu, mut mmio) = dmg(0xF1);
        for i in 0..1024u16 {
            mmio.write(0x9C00 + i, 4);
        }
        mmio.write(WX, wx);
        mmio.write(WY, 0);
        ppu.on_wy_write(0, &mmio);
        let fb = picture(&mut ppu, &mut mmio);
        // Tile 4's left column shows where a multiple of eight has come.
        let first = usize::from(wx) + 1;
        for x in 0..20usize {
            let expected = u8::from(x % 8 == first % 8);
            assert_eq!(at(&fb, x, 101), expected, "wx {wx} column {x}");
        }
    }
}

#[test]
fn a_window_right_of_the_screen_never_shows() {
    let (mut ppu, mut mmio) = dmg(0xF1);
    for i in 0..1024u16 {
        mmio.write(0x9C00 + i, 1);
    }
    mmio.write(WX, 167);
    mmio.write(WY, 0);
    ppu.on_wy_write(0, &mmio);
    let fb = picture(&mut ppu, &mut mmio);
    assert!(fb.iter().all(|&s| s == 0));
}

#[test]
fn without_the_background_the_screen_is_blank() {
    let (mut ppu, mut mmio) = dmg(0x90);
    for i in 0..1024u16 {
        mmio.write(0x9800 + i, 3);
    }
    let fb = picture(&mut ppu, &mut mmio);
    assert!(fb.iter().all(|&s| s == 0));
}

#[test]
fn objects_flip() {
    let (mut ppu, mut mmio) = dmg(0x93);
    objects(
        &mut mmio,
        &[[16 + 10, 8 + 10, 4, 0x00], [16 + 10, 8 + 30, 4, 0x20], [16 + 10, 8 + 50, 4, 0x40]],
    );
    let fb = picture(&mut ppu, &mut mmio);
    // As it is: top row and left column.
    assert_eq!((at(&fb, 14, 10), at(&fb, 10, 14), at(&fb, 17, 14), at(&fb, 14, 17)), (1, 1, 0, 0));
    // Mirrored: top row and right column.
    assert_eq!((at(&fb, 34, 10), at(&fb, 30, 14), at(&fb, 37, 14), at(&fb, 34, 17)), (1, 0, 1, 0));
    // Upside down: bottom row and left column.
    assert_eq!((at(&fb, 54, 10), at(&fb, 50, 14), at(&fb, 57, 14), at(&fb, 54, 17)), (0, 1, 0, 1));
}

#[test]
fn tall_objects_take_two_tiles() {
    let (mut ppu, mut mmio) = dmg(0x97);
    objects(&mut mmio, &[[16 + 10, 8 + 10, 3, 0x00], [16 + 10, 8 + 30, 2, 0x40]]);
    let fb = picture(&mut ppu, &mut mmio);
    assert_eq!((at(&fb, 12, 10), at(&fb, 12, 17), at(&fb, 12, 18), at(&fb, 12, 25)), (2, 2, 3, 3));
    assert_eq!((at(&fb, 32, 10), at(&fb, 32, 17), at(&fb, 32, 18), at(&fb, 32, 25)), (3, 3, 2, 2));
    assert_eq!(at(&fb, 12, 26), 0);
}

#[test]
fn the_second_palette_is_the_objects_choice() {
    let (mut ppu, mut mmio) = dmg(0x93);
    objects(&mut mmio, &[[16 + 10, 8 + 10, 1, 0x00], [16 + 10, 8 + 30, 1, 0x10]]);
    let fb = picture(&mut ppu, &mut mmio);
    assert_eq!((at(&fb, 12, 12), at(&fb, 32, 12)), (1, 2));
}

#[test]
fn an_object_behind_shows_only_over_colour_zero() {
    let (mut ppu, mut mmio) = dmg(0x93);
    // Background tile 1 in the second column of tiles.
    for row in 0..32u16 {
        mmio.write(0x9800 + row * 32 + 1, 1);
    }
    objects(&mut mmio, &[[16 + 10, 8 + 4, 3, 0x80]]);
    let fb = picture(&mut ppu, &mut mmio);
    assert_eq!((at(&fb, 4, 12), at(&fb, 7, 12)), (3, 3));
    assert_eq!((at(&fb, 8, 12), at(&fb, 11, 12)), (1, 1));
}

#[test]
fn the_leftmost_object_wins_on_dmg_and_the_first_on_cgb() {
    let list = [[16 + 10, 8 + 14, 1, 0], [16 + 10, 8 + 10, 2, 0]];
    let (mut ppu, mut mmio) = dmg(0x93);
    objects(&mut mmio, &list);
    let fb = picture(&mut ppu, &mut mmio);
    assert_eq!((at(&fb, 12, 12), at(&fb, 15, 12), at(&fb, 20, 12)), (2, 2, 1));

    let (mut ppu, mut mmio) = dmg(0x93);
    mmio.set_cgb_features_enabled(true);
    mmio.obj_palette[2] = 0x1F;
    mmio.obj_palette[5] = 0x7C;
    objects(&mut mmio, &list);
    ppu.set_cgb_color_conversion(rustyboi_ppu::ColorCorrection::Linear);
    dots(&mut ppu, &mut mmio, 3 * 70224);
    let fb = match ppu.get_frame(&mmio) {
        RenderedFrame::Color(fb) => fb,
        RenderedFrame::Monochrome(_) => panic!("a CGB picture is in colour"),
    };
    let rgb = |x: usize| &fb[(12 * 160 + x) * 3..(12 * 160 + x) * 3 + 3];
    assert_eq!(rgb(12), &[0, 0, 255]);
    assert_eq!(rgb(15), &[255, 0, 0]);
    assert_eq!(rgb(20), &[255, 0, 0]);
}

#[test]
fn objects_hang_over_the_edges() {
    let (mut ppu, mut mmio) = dmg(0x93);
    objects(&mut mmio, &[[16 - 3, 8 - 5, 3, 0], [16 + 140, 8 + 156, 3, 0]]);
    let fb = picture(&mut ppu, &mut mmio);
    assert_eq!((at(&fb, 0, 0), at(&fb, 2, 4), at(&fb, 3, 0), at(&fb, 0, 5)), (3, 3, 0, 0));
    assert_eq!((at(&fb, 159, 143), at(&fb, 156, 140), at(&fb, 155, 143)), (3, 3, 0));
}

#[test]
fn objects_lengthen_drawing() {
    let length = |list: &[[u8; 4]]| {
        let (mut ppu, mut mmio) = dmg(0x93);
        objects(&mut mmio, list);
        dots(&mut ppu, &mut mmio, 2 * 70224);
        while !(mmio.ly == 12 && *ppu.get_state() == State::PixelTransfer) {
            dots(&mut ppu, &mut mmio, 1);
        }
        let mut n = 0;
        while *ppu.get_state() == State::PixelTransfer {
            dots(&mut ppu, &mut mmio, 1);
            n += 1;
        }
        n
    };
    let bare = length(&[]);
    assert_eq!(length(&[[16 + 10, 8, 1, 0]]), bare + 11);
    assert_eq!(length(&[[16 + 10, 8 + 5, 1, 0]]), bare + 6);
    assert_eq!(length(&[[16 + 10, 8, 1, 0], [16 + 10, 8, 1, 0]]), bare + 17);
    assert_eq!(length(&[[16 + 60, 8, 1, 0]]), bare);
}
