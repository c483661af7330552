//! Colour pictures, Super Game Boy pictures and debug records.

use rustyboi_ppu::mmio::Mmio;
use rustyboi_ppu::sgb::{MaskMode, Sgb, SgbBorder};
use rustyboi_ppu::sgb_picture::RenderedFrame;
use rustyboi_ppu::{
    ColorCorrection, FetchDebugEventKind, Ppu, BGP, FRAMEBUFFER_SIZE, LCD_CONTROL, SGB_FRAME_SIZE,
    SGB_FRAME_WIDTH,
};

fn dots(ppu: &mut Ppu, mmio: &mut Mmio, n: u32) {
    for _ in 0..n {
        mmio.bulk_advance_idle(1);
        ppu.step(mmio);
    }
}

fn cgb() -> (Ppu, Mmio) {
    let mut mmio = Mmio::new();
    mmio.set_cgb_features_enabled(true);
    mmio.write(LCD_CONTROL, 0x91);
    let mut ppu = Ppu::new();
    ppu.set_cgb_color_conversion(ColorCorrection::Linear);
    (ppu, mmio)
}

fn color(ppu: &mut Ppu, mmio: &Mmio) -> Vec<u8> {
    match ppu.get_frame(mmio) {
        RenderedFrame::Color(fb) => fb,
        RenderedFrame::Monochrome(_) => panic!("a CGB picture is in colour"),
    }
}

#[test]
fn cgb_tiles_use_their_palette() {
    let (mut ppu, mut mmio) = cgb();
    // Palette 2, colour 1: green.
    mmio.bg_palette[2 * 8 + 2] = 0xE0;
    mmio.bg_palette[2 * 8 + 3] = 0x03;
    for row in 0..16 {
        mmio.vram0[16 + row] = if row % 2 == 0 { 0xFF } else { 0 };
    }
    mmio.vram0[0x1800] = 1;
    mmio.vram1[0x1800] = 2;
    dots(&mut ppu, &mut mmio, 3 * 70224);
    let fb = color(&mut ppu, &mmio);
    assert_eq!(fb.len(), FRAMEBUFFER_SIZE * 3);
    for x in 0..8 {
        assert_eq!(&fb[x * 3..x * 3 + 3], &[0, 255, 0]);
    }
    assert_eq!(&fb[24..27], &[0, 0, 0]);
}

#[test]
fn cgb_objects_use_their_own_palettes() {
    let (mut ppu, mut mmio) = cgb();
    mmio.write(LCD_CONTROL, 0x93);
    mmio.obj_palette[3 * 8 + 6] = 0x1F;
    for row in 0..16 {
        mmio.vram0[16 + row] = 0xFF;
    }
    mmio.oam[0..4].copy_from_slice(&[16, 8, 1, 3]);
    mmio.oam_write_pending = true;
    dots(&mut ppu, &mut mmio, 3 * 70224);
    let fb = color(&mut ppu, &mmio);
    assert_eq!(&fb[0..3], &[255, 0, 0]);
    assert_eq!(&fb[7 * 3..7 * 3 + 3], &[255, 0, 0]);
    assert_eq!(&fb[8 * 3..8 * 3 + 3], &[0, 0, 0]);
}

#[test]
fn records_are_kept_only_on_request() {
    let (mut ppu, mut mmio) = cgb();
    dots(&mut ppu, &mut mmio, 3 * 456);
    assert!(ppu.take_fetch_debug_events().is_empty());
    assert!(ppu.take_pixel_debug_events().is_empty());
    ppu.set_fetch_debug_events_enabled(true);
    dots(&mut ppu, &mut mmio, 456);
    let fetches = ppu.take_fetch_debug_events();
    let pixels = ppu.take_pixel_debug_events();
    assert!(fetches.iter().any(|e| e.kind == FetchDebugEventKind::TileNumber));
    assert_eq!(pixels.len(), 160);
    assert!(ppu.take_fetch_debug_events().is_empty());
    ppu.set_fetch_debug_events_enabled(false);
    dots(&mut ppu, &mut mmio, 456);
    assert!(ppu.take_pixel_debug_events().is_empty());
}

#[test]
fn records_do_not_change_the_picture() {
    let run = |records: bool| {
        let (mut ppu, mut mmio) = cgb();
        mmio.bg_palette[0] = 0x34;
        ppu.set_fetch_debug_events_enabled(records);
        dots(&mut ppu, &mut mmio, 3 * 70224);
        color(&mut ppu, &mmio)
    };
    assert_eq!(run(false), run(true));
}

fn sgb_border() -> SgbBorder {
    let mut tiles = vec![0u8; 256 * 32];
    // Tile 1 is solid colour 1.
    for row in 0..8 {
        tiles[32 + 2 * row] = 0xFF;
    }
    let mut map = vec![0u8; 28 * 32 * 2];
    map[0] = 1;
    // Palette 4 in the first entry.
    map[1] = 0x10;
    let mut pals = vec![0u16; 64];
    pals[1] = 0x001F;
    SgbBorder { tiles, map, pals }
}

fn sgb(mask: MaskMode, colorized: bool) -> Sgb {
    Sgb {
        mask,
        colorized,
        border: Some(sgb_border()),
        backdrop: 0x7C00,
        cells: vec![[0x7FFF, 0x03E0, 0x001F, 0x0000]; 20 * 18],
    }
}

fn sgb_run(s: Sgb) -> (Ppu, Mmio) {
    let mut mmio = Mmio::new();
    mmio.write(LCD_CONTROL, 0x91);
    mmio.write(BGP, 0xE4);
    for row in 0..8u16 {
        mmio.write(0x8000 + 2 * row, 0xFF);
    }
    mmio.sgb = Some(s);
    let mut ppu = Ppu::new();
    dots(&mut ppu, &mut mmio, 3 * 70224);
    (ppu, mmio)
}

#[test]
fn a_colourised_screen_shows_its_cells() {
    let (ppu, mmio) = sgb_run(sgb(MaskMode::Cancel, true));
    let mut ppu = ppu;
    match ppu.get_frame(&mmio) {
        RenderedFrame::Color(fb) => {
            assert_eq!(fb.len(), FRAMEBUFFER_SIZE * 3);
            assert_eq!(&fb[0..3], &[0, 255, 0]);
        }
        RenderedFrame::Monochrome(_) => panic!("the screen is colourised"),
    }
}

#[test]
fn the_border_surrounds_the_screen() {
    let (ppu, mmio) = sgb_run(sgb(MaskMode::Cancel, true));
    let fb = ppu.sgb_composited_frame(&mmio, [0x7FFF, 0x56B5, 0x294A, 0]).unwrap();
    assert_eq!(fb.len(), SGB_FRAME_SIZE * 3);
    // The corner is the border's red, the screen its cell's green, the rest
    // the backdrop's blue.
    assert_eq!(&fb[0..3], &[255, 0, 0]);
    let screen = (40 * SGB_FRAME_WIDTH + 48) * 3;
    assert_eq!(&fb[screen..screen + 3], &[0, 255, 0]);
    assert_eq!(&fb[8 * 3..8 * 3 + 3], &[0, 0, 255]);

    let layers = ppu.sgb_border_layers(&mmio).unwrap();
    assert_eq!(&layers.ring[0..4], &[255, 0, 0, 255]);
    assert!(layers.overlay.is_none());
}

#[test]
fn without_a_border_there_is_no_composite() {
    let (ppu, mut mmio) = sgb_run(sgb(MaskMode::Cancel, true));
    mmio.sgb.as_mut().unwrap().border = None;
    assert!(ppu.sgb_composited_frame(&mmio, [0; 4]).is_none());
    assert!(ppu.sgb_border_layers(&mmio).is_none());
    mmio.sgb = None;
    assert!(ppu.sgb_composited_frame(&mmio, [0; 4]).is_none());
}

#[test]
fn a_black_mask_blacks_the_screen_out() {
    let (mut ppu, mmio) = sgb_run(sgb(MaskMode::Black, true));
    match ppu.get_frame(&mmio) {
        RenderedFrame::Color(fb) => assert!(fb.iter().all(|&v| v == 0)),
        RenderedFrame::Monochrome(fb) => assert!(fb.iter().all(|&v| v == 3)),
    }
}
