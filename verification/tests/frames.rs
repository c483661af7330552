//! Whole frames, dot by dot.

use rustyboi_ppu::mmio::{InterruptFlag, Mmio};
use rustyboi_ppu::sgb_picture::RenderedFrame;
use rustyboi_ppu::{Ppu, State, BGP, LCD_CONTROL, LCD_STATUS, LYC, OBP0, SCX, SCY, WX, WY};

/// Lets a dot pass, the clock first.
fn dot(ppu: &mut Ppu, mmio: &mut Mmio) {
    mmio.bulk_advance_idle(1);
    ppu.step(mmio);
}

fn dots(ppu: &mut Ppu, mmio: &mut Mmio, n: u32) {
    for _ in 0..n {
        dot(ppu, mmio);
    }
}

fn run_frames(ppu: &mut Ppu, mmio: &mut Mmio, n: u32) {
    dots(ppu, mmio, n * 70224);
}

fn dmg(lcdc: u8) -> (Ppu, Mmio) {
    let mut mmio = Mmio::new();
    mmio.write(LCD_CONTROL, lcdc);
    mmio.write(BGP, 0xE4);
    (Ppu::new(), mmio)
}

fn mono(ppu: &mut Ppu, mmio: &Mmio) -> Vec<u8> {
    match ppu.get_frame(mmio) {
        RenderedFrame::Monochrome(fb) => fb,
        RenderedFrame::Color(_) => panic!("a DMG picture is monochrome"),
    }
}

#[test]
fn off_means_nothing_happens() {
    let mut mmio = Mmio::new();
    let mut ppu = Ppu::new();
    dots(&mut ppu, &mut mmio, 1000);
    assert!(ppu.is_disabled());
    assert_eq!(ppu.get_ticks(), 0);
    assert!(!ppu.has_frame());
}

#[test]
fn a_frame_takes_154_lines_of_456_dots() {
    let (mut ppu, mut mmio) = dmg(0x91);
    let mut lines = Vec::new();
    let mut vblank_at = Vec::new();
    for i in 0..3 * 70224u32 {
        let before = mmio.ly;
        dot(&mut ppu, &mut mmio);
        if mmio.ly != before {
            lines.push((i, mmio.ly));
        }
        if mmio.irq & InterruptFlag::VBlank.mask() != 0 {
            vblank_at.push(i);
            mmio.irq = 0;
        }
    }
    assert!(lines.iter().any(|&(_, ly)| ly == 153));
    assert_eq!(vblank_at.len(), 3);
    assert_eq!(vblank_at[1] - vblank_at[0], 70224);
    assert_eq!(vblank_at[2] - vblank_at[1], 70224);
    let starts: Vec<u32> = lines.iter().filter(|&&(_, ly)| ly == 10).map(|&(i, _)| i).collect();
    assert_eq!(starts[1] - starts[0], 70224);
}

#[test]
fn modes_follow_each_other_on_a_line() {
    let (mut ppu, mut mmio) = dmg(0x91);
    run_frames(&mut ppu, &mut mmio, 1);
    while !(mmio.ly == 50 && *ppu.get_state() == State::OAMSearch) {
        dot(&mut ppu, &mut mmio);
    }
    let mut scan = 0;
    while *ppu.get_state() == State::OAMSearch {
        dot(&mut ppu, &mut mmio);
        scan += 1;
    }
    let mut draw = 0;
    while *ppu.get_state() == State::PixelTransfer {
        dot(&mut ppu, &mut mmio);
        draw += 1;
    }
    let mut blank = 0;
    while *ppu.get_state() == State::HBlank {
        dot(&mut ppu, &mut mmio);
        blank += 1;
    }
    assert_eq!(scan + draw + blank, 456);
    assert!((80..=82).contains(&scan), "scan took {scan}");
    assert!((170..=176).contains(&draw), "drawing took {draw}");
}

#[test]
fn fine_scroll_lengthens_drawing_by_as_much() {
    let length = |scx: u8| {
        let (mut ppu, mut mmio) = dmg(0x91);
        mmio.write(SCX, scx);
        ppu.on_scx_write(scx, &mmio);
        run_frames(&mut ppu, &mut mmio, 1);
        while !(mmio.ly == 50 && *ppu.get_state() == State::PixelTransfer) {
            dot(&mut ppu, &mut mmio);
        }
        let mut draw = 0;
        while *ppu.get_state() == State::PixelTransfer {
            dot(&mut ppu, &mut mmio);
            draw += 1;
        }
        draw
    };
    let base = length(0);
    for scx in 1..8 {
        assert_eq!(length(scx), base + u32::from(scx));
    }
    assert_eq!(length(8), base);
}

#[test]
fn background_tiles_reach_the_picture() {
    let (mut ppu, mut mmio) = dmg(0x91);
    // Tile 1: columns of shades 0 to 3, twice.
    for row in 0..8u16 {
        mmio.write(0x8010 + 2 * row, 0b0101_0101);
        mmio.write(0x8011 + 2 * row, 0b0011_0011);
    }
    mmio.write(0x9800, 1);
    mmio.write(0x9800 + 33, 1);
    run_frames(&mut ppu, &mut mmio, 3);
    let fb = mono(&mut ppu, &mmio);
    assert_eq!(&fb[0..10], &[0, 1, 2, 3, 0, 1, 2, 3, 0, 0]);
    assert_eq!(&fb[7 * 160..7 * 160 + 10], &[0, 1, 2, 3, 0, 1, 2, 3, 0, 0]);
    assert_eq!(&fb[8 * 160..8 * 160 + 16], &[0, 0, 0, 0, 0, 0, 0, 0, 0, 1, 2, 3, 0, 1, 2, 3]);
}

#[test]
fn scrolling_moves_the_picture() {
    let (mut ppu, mut mmio) = dmg(0x91);
    for row in 0..8u16 {
        mmio.write(0x8010 + 2 * row, 0b0101_0101);
        mmio.write(0x8011 + 2 * row, 0b0011_0011);
    }
    mmio.write(0x9800, 1);
    mmio.write(SCX, 3);
    mmio.write(SCY, 2);
    run_frames(&mut ppu, &mut mmio, 3);
    let fb = mono(&mut ppu, &mmio);
    assert_eq!(&fb[0..8], &[3, 0, 1, 2, 3, 0, 0, 0]);
    assert_eq!(&fb[5 * 160..5 * 160 + 8], &[3, 0, 1, 2, 3, 0, 0, 0]);
    assert_eq!(&fb[6 * 160..6 * 160 + 8], &[0; 8]);
}

#[test]
fn the_window_covers_the_background() {
    let (mut ppu, mut mmio) = dmg(0xF1);
    for row in 0..8u16 {
        mmio.write(0x8010 + 2 * row, 0xFF);
    }
    // The window's map is 0x9C00.
    for at in 0..1024u16 {
        mmio.write(0x9C00 + at, 1);
    }
    mmio.write(WX, 87);
    mmio.write(WY, 40);
    ppu.on_wy_write(40, &mmio);
    run_frames(&mut ppu, &mut mmio, 3);
    let fb = mono(&mut ppu, &mmio);
    for y in 0..144 {
        for x in 0..160 {
            let inside = y >= 40 && x >= 80;
            assert_eq!(fb[y * 160 + x], u8::from(inside), "at {x},{y}");
        }
    }
}

#[test]
fn objects_show_in_front_of_the_background() {
    let (mut ppu, mut mmio) = dmg(0x93);
    mmio.write(OBP0, 0xE4);
    for row in 0..8u16 {
        mmio.write(0x8010 + 2 * row, 0xFF);
        mmio.write(0x8011 + 2 * row, 0xFF);
    }
    let object = [16 + 20, 8 + 30, 1, 0];
    for (i, b) in object.iter().enumerate() {
        mmio.oam[i] = *b;
    }
    mmio.oam_write_pending = true;
    run_frames(&mut ppu, &mut mmio, 3);
    let fb = mono(&mut ppu, &mmio);
    for y in 0..144 {
        for x in 0..160 {
            let inside = (20..28).contains(&y) && (30..38).contains(&x);
            assert_eq!(fb[y * 160 + x], if inside { 3 } else { 0 }, "at {x},{y}");
        }
    }
}

#[test]
fn ten_objects_at_most_show_on_a_line() {
    let (mut ppu, mut mmio) = dmg(0x93);
    mmio.write(OBP0, 0xE4);
    for row in 0..8u16 {
        mmio.write(0x8010 + 2 * row, 0xFF);
    }
    for i in 0..12u8 {
        let at = usize::from(i) * 4;
        mmio.oam[at] = 16 + 20;
        mmio.oam[at + 1] = 8 + i * 10;
        mmio.oam[at + 2] = 1;
        mmio.oam[at + 3] = 0;
    }
    mmio.oam_write_pending = true;
    run_frames(&mut ppu, &mut mmio, 3);
    let fb = mono(&mut ppu, &mmio);
    let row = &fb[20 * 160..21 * 160];
    for i in 0..12usize {
        let shade = if i < 10 { 1 } else { 0 };
        assert!(row[i * 10..i * 10 + 8].iter().all(|&s| s == shade), "object {i}");
    }
}

#[test]
fn lyc_match_raises_stat_once_a_frame() {
    let (mut ppu, mut mmio) = dmg(0x91);
    mmio.write(LYC, 60);
    mmio.write(LCD_STATUS, 0x40);
    let mut raised = Vec::new();
    run_frames(&mut ppu, &mut mmio, 1);
    mmio.irq = 0;
    for i in 0..2 * 70224u32 {
        dot(&mut ppu, &mut mmio);
        if mmio.irq & InterruptFlag::Lcd.mask() != 0 {
            raised.push(i);
            mmio.irq = 0;
        }
    }
    assert_eq!(raised.len(), 2);
    assert_eq!(raised[1] - raised[0], 70224);
}

#[test]
fn the_first_frame_after_switching_on_is_blank() {
    let (mut ppu, mut mmio) = dmg(0x91);
    for row in 0..8u16 {
        mmio.write(0x8000 + 2 * row, 0xFF);
    }
    run_frames(&mut ppu, &mut mmio, 1);
    let fb = mono(&mut ppu, &mmio);
    assert!(fb.iter().all(|&s| s == 0));
    run_frames(&mut ppu, &mut mmio, 2);
    assert!(ppu.frame_ready());
    let fb = mono(&mut ppu, &mmio);
    assert!(fb.iter().all(|&s| s == 1));
    assert!(!ppu.frame_ready());
}

#[test]
fn switching_off_clears_ly_and_stops() {
    let (mut ppu, mut mmio) = dmg(0x91);
    dots(&mut ppu, &mut mmio, 50 * 456);
    assert_eq!(mmio.ly, 50);
    mmio.write(LCD_CONTROL, 0x11);
    ppu.handle_lcdc_write(0x11, &mmio);
    dots(&mut ppu, &mut mmio, 1000);
    assert!(ppu.is_disabled());
    assert_eq!(mmio.ly, 0);
    assert_eq!(mmio.read(LCD_STATUS) & 0x03, 0);
}

#[test]
fn reset_is_a_new_unit() {
    let (mut ppu, mut mmio) = dmg(0x91);
    run_frames(&mut ppu, &mut mmio, 2);
    ppu.reset();
    let fresh = Ppu::new();
    assert_eq!(ppu.is_disabled(), fresh.is_disabled());
    assert_eq!(ppu.get_ticks(), fresh.get_ticks());
    assert_eq!(ppu.abs_cc(), fresh.abs_cc());
    assert_eq!(ppu.has_frame(), fresh.has_frame());
    assert_eq!(ppu.get_state(), fresh.get_state());
    assert_eq!(ppu.dmg_shade_frame(), fresh.dmg_shade_frame());
}

#[test]
fn going_fast_changes_nothing() {
    let run = |hold: bool| {
        let (mut ppu, mut mmio) = dmg(0xF3);
        mmio.write(OBP0, 0xE4);
        for at in 0..0x800u16 {
            mmio.write(0x8000 + at, (at * 7) as u8);
        }
        for at in 0..0x400u16 {
            mmio.write(0x9800 + at, (at % 13) as u8);
            mmio.write(0x9C00 + at, (at % 5) as u8);
        }
        for i in 0..40u8 {
            let at = usize::from(i) * 4;
            mmio.oam[at..at + 4].copy_from_slice(&[10 + i * 4, 5 + i * 9, i, i << 3]);
        }
        mmio.oam_write_pending = true;
        mmio.write(WX, 100);
        mmio.write(WY, 70);
        ppu.on_wy_write(70, &mmio);
        let mut modes = Vec::new();
        for _ in 0..3 * 70224u32 {
            if hold {
                ppu.clk.fast_hold = 2;
            }
            dot(&mut ppu, &mut mmio);
            modes.push((mmio.ly, mmio.stat, mmio.irq));
        }
        (mono(&mut ppu, &mmio), modes)
    };
    let (slow_picture, slow_modes) = run(true);
    let (picture, modes) = run(false);
    assert!(picture.iter().any(|&s| s != picture[0]));
    assert_eq!(picture, slow_picture);
    assert_eq!(modes, slow_modes);
}

#[test]
fn a_clone_goes_on_alike() {
    let (mut ppu, mut mmio) = dmg(0x91);
    mmio.write(0x8000, 0x5A);
    run_frames(&mut ppu, &mut mmio, 2);
    let mut other = ppu.clone();
    assert_eq!(mono(&mut ppu, &mmio), mono(&mut other, &mmio));
    assert_eq!(ppu.abs_cc(), other.abs_cc());
    assert_eq!(ppu.get_ticks(), other.get_ticks());
}
