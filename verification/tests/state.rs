//! The unit's state as callers see it.

use rustyboi_ppu::mmio::Mmio;
use rustyboi_ppu::sgb::{MaskMode, Sgb};
use rustyboi_ppu::sgb_picture::RenderedFrame;
use rustyboi_ppu::{ColorCorrection, Ppu, State, BGP, LCD_CONTROL, LYC, SCY};

fn dots(ppu: &mut Ppu, mmio: &mut Mmio, n: u32) {
    for _ in 0..n {
        mmio.bulk_advance_idle(1);
        ppu.step(mmio);
    }
}

fn running(cgb: bool, lcdc: u8) -> (Ppu, Mmio) {
    let mut mmio = Mmio::new();
    mmio.set_cgb_features_enabled(cgb);
    mmio.write(LCD_CONTROL, lcdc);
    mmio.write(BGP, 0xE4);
    let mut ppu = Ppu::new();
    dots(&mut ppu, &mut mmio, 3 * 70224);
    (ppu, mmio)
}

fn until(ppu: &mut Ppu, mmio: &mut Mmio, ly: u8, state: State) {
    while !(mmio.ly == ly && *ppu.get_state() == state) {
        dots(ppu, mmio, 1);
    }
}

#[test]
fn a_new_unit_is_off() {
    let ppu = Ppu::new();
    assert!(ppu.is_disabled() && ppu.is_lcd_disabled());
    assert_eq!(ppu.abs_cc(), 0);
    assert_eq!((ppu.get_ticks(), ppu.get_x()), (0, 0));
    assert!(!ppu.frame_ready() && !ppu.has_frame());
    assert_eq!(ppu.get_sprites_on_line_count(), 0);
    assert_eq!(ppu.get_fetcher_fifo_size(), 0);
    assert_eq!(ppu.get_fetcher_pixel_buffer(), [0; 8]);
    assert_eq!(ppu.render_carry_skew(), 0);
    assert!(!ppu.is_on_rendering_line() && !ppu.in_pixel_transfer());
    assert_eq!(ColorCorrection::default(), ColorCorrection::Linear);
}

#[test]
fn drawing_fills_the_queue_and_moves_along_the_line() {
    let (mut ppu, mut mmio) = running(false, 0x91);
    until(&mut ppu, &mut mmio, 30, State::PixelTransfer);
    let mut last = 0;
    while *ppu.get_state() == State::PixelTransfer {
        assert!(ppu.in_pixel_transfer() && ppu.is_on_rendering_line());
        assert!(ppu.get_fetcher_fifo_size() <= 16);
        assert!(ppu.get_x() >= last && ppu.get_x() <= 160);
        last = ppu.get_x();
        dots(&mut ppu, &mut mmio, 1);
    }
    assert_eq!(ppu.get_x(), 160);
    assert!(ppu.get_fetcher_tile_index() >= 20);
}

#[test]
fn objects_of_the_line_are_counted() {
    let (mut ppu, mut mmio) = running(false, 0x93);
    for i in 0..3 {
        mmio.oam[i * 4] = 16 + 40;
        mmio.oam[i * 4 + 1] = 20 + 30 * i as u8;
    }
    mmio.oam_write_pending = true;
    dots(&mut ppu, &mut mmio, 70224);
    until(&mut ppu, &mut mmio, 41, State::PixelTransfer);
    assert_eq!(ppu.get_sprites_on_line_count(), 3);
    let mut stalled = false;
    while *ppu.get_state() == State::PixelTransfer {
        stalled = stalled || ppu.get_sprite_fetch_stall() > 0;
        assert!(ppu.get_sprite_fetch_stall() < 11);
        dots(&mut ppu, &mut mmio, 1);
    }
    assert!(stalled);
    until(&mut ppu, &mut mmio, 60, State::PixelTransfer);
    assert_eq!(ppu.get_sprites_on_line_count(), 0);
}

#[test]
fn vertical_scroll_reaches_the_picture_late() {
    let (mut ppu, mut mmio) = running(false, 0x91);
    mmio.write(0x8010, 0xFF);
    mmio.write(0x9800, 1);
    mmio.write(SCY, 3);
    ppu.on_scy_write(3, &mmio);
    dots(&mut ppu, &mut mmio, 2 * 70224);
    let fb = match ppu.get_frame(&mmio) {
        RenderedFrame::Monochrome(fb) => fb,
        RenderedFrame::Color(_) => panic!("a DMG picture is monochrome"),
    };
    // The tile's top row is map row 0, which is now off the top of the screen.
    assert!(fb.iter().all(|&s| s == 0));
}

#[test]
fn presented_shades_are_the_panels() {
    let (mut ppu, mut mmio) = running(false, 0x91);
    assert_eq!(&ppu.presented_dmg_shades(&mmio), ppu.dmg_shade_frame());
    mmio.write(LCD_CONTROL, 0x11);
    ppu.handle_lcdc_write(0x11, &mmio);
    dots(&mut ppu, &mut mmio, 2);
    assert!(ppu.presented_dmg_shades(&mmio).iter().all(|&s| s == 0));
}

#[test]
fn stop_fades_the_panel() {
    let (mut ppu, mut mmio) = running(true, 0x91);
    mmio.bg_palette[0] = 0x1F;
    dots(&mut ppu, &mut mmio, 2 * 70224);
    until(&mut ppu, &mut mmio, 10, State::PixelTransfer);
    ppu.enter_stop_mode_panel(&mmio);
    let kept = match ppu.get_frame(&mmio) {
        RenderedFrame::Color(fb) => fb,
        RenderedFrame::Monochrome(_) => panic!("a CGB picture is in colour"),
    };
    assert!(kept.iter().any(|&v| v != 0));
    until(&mut ppu, &mut mmio, 10, State::HBlank);
    ppu.enter_stop_mode_panel(&mmio);
    match ppu.get_frame(&mmio) {
        RenderedFrame::Color(fb) => assert!(fb.iter().all(|&v| v == 0)),
        RenderedFrame::Monochrome(_) => panic!("a CGB picture is in colour"),
    }
}

#[test]
fn a_frozen_screen_keeps_its_picture() {
    let (mut ppu, mut mmio) = running(false, 0x91);
    mmio.sgb = Some(Sgb {
        mask: MaskMode::Freeze,
        colorized: false,
        border: None,
        backdrop: 0,
        cells: vec![[0; 4]; 20 * 18],
    });
    let shades = |f: RenderedFrame| match f {
        RenderedFrame::Monochrome(fb) => fb,
        RenderedFrame::Color(_) => panic!("not colourised"),
    };
    let before = shades(ppu.get_frame(&mmio));
    for row in 0..8u16 {
        mmio.write(0x8000 + 2 * row, 0xFF);
    }
    dots(&mut ppu, &mut mmio, 2 * 70224);
    assert_eq!(shades(ppu.get_frame(&mmio)), before);
    mmio.sgb.as_mut().unwrap().mask = MaskMode::Cancel;
    assert!(shades(ppu.get_frame(&mmio)).iter().all(|&s| s == 1));
}

#[test]
fn the_scan_has_a_row_for_stray_accesses() {
    let (mut ppu, mut mmio) = running(false, 0x91);
    assert_eq!(Ppu::new().oam_bug_mode2_row(), None);
    until(&mut ppu, &mut mmio, 20, State::PixelTransfer);
    assert_eq!(ppu.oam_bug_mode2_row(), None);
    until(&mut ppu, &mut mmio, 21, State::OAMSearch);
    let mut rows = Vec::new();
    while *ppu.get_state() == State::OAMSearch {
        if let Some(row) = ppu.oam_bug_mode2_row() {
            assert!((1..20).contains(&row));
            rows.push(row);
        }
        dots(&mut ppu, &mut mmio, 1);
    }
    assert!(rows.windows(2).all(|w| w[0] <= w[1]));
    assert_eq!(*rows.last().unwrap(), 19);
}

#[test]
fn lyc_reads_match_the_line() {
    let (mut ppu, mut mmio) = running(true, 0x91);
    mmio.write(LYC, 70);
    until(&mut ppu, &mut mmio, 70, State::PixelTransfer);
    dots(&mut ppu, &mut mmio, 50);
    let now = mmio.master_cc();
    assert_ne!(ppu.get_lyc_flag_at_cc(&mmio, now), Some(false));
    mmio.write(LYC, 71);
    assert_ne!(ppu.get_lyc_flag_at_cc(&mmio, now), Some(true));
    assert_eq!(Ppu::new().get_lyc_flag_at_cc(&mmio, now), None);
}

#[test]
fn an_lcd_that_is_off_has_no_dma_window() {
    let ppu = Ppu::new();
    assert_eq!(ppu.hdma_period(false), None);
    assert_eq!(ppu.hdma_period_kick(100, false), None);
    assert_eq!(ppu.hdma_disable_fires(100, false), None);
    assert_eq!(ppu.hdma_m0_edge(false), None);
    assert_eq!(ppu.m0_time_master_cc(), None);
    assert_eq!(ppu.vram_readable_at_cc(100, true, false), Some(true));
}
