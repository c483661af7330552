//! Register writes in the middle of a line.

use rustyboi_ppu::mmio::Mmio;
use rustyboi_ppu::{ColorCorrection, Ppu, State, BGP, LCD_CONTROL, OBP0, SCX, SCY};

fn dots(ppu: &mut Ppu, mmio: &mut Mmio, n: u32) {
    for _ in 0..n {
        mmio.bulk_advance_idle(1);
        ppu.step(mmio);
    }
}

/// Tile 1 is solid colour 1 and tile 0 blank, in the tile data at 0x8000; both
/// are blank in that at 0x9000.
fn machine(lcdc: u8, bgp: u8) -> (Ppu, Mmio) {
    let mut mmio = Mmio::new();
    mmio.write(LCD_CONTROL, lcdc);
    mmio.write(BGP, bgp);
    for row in 0..8u16 {
        mmio.write(0x8010 + 2 * row, 0xFF);
    }
    let mut ppu = Ppu::new();
    ppu.set_cgb_color_conversion(ColorCorrection::Linear);
    dots(&mut ppu, &mut mmio, 3 * 70224);
    (ppu, mmio)
}

fn until_column(ppu: &mut Ppu, mmio: &mut Mmio, ly: u8, x: u8) {
    while !(mmio.ly == ly && *ppu.get_state() == State::PixelTransfer && ppu.get_x() >= x) {
        dots(ppu, mmio, 1);
    }
}

fn until_line_end(ppu: &mut Ppu, mmio: &mut Mmio) {
    while *ppu.get_state() == State::PixelTransfer {
        dots(ppu, mmio, 1);
    }
}

fn write_bgp(ppu: &mut Ppu, mmio: &mut Mmio, value: u8) {
    mmio.write(BGP, value);
    ppu.on_bgp_write(value, mmio);
}

fn shades(ppu: &Ppu, ly: usize) -> Vec<u8> {
    ppu.frames.fb_a()[ly * 160..ly * 160 + 160].to_vec()
}

#[test]
fn a_palette_write_shows_from_its_pixel_on() {
    let (mut ppu, mut mmio) = machine(0x91, 0x01);
    until_column(&mut ppu, &mut mmio, 50, 80);
    write_bgp(&mut ppu, &mut mmio, 0x02);
    until_line_end(&mut ppu, &mut mmio);
    let row = shades(&ppu, 50);
    let first = row.iter().position(|&s| s != 1).unwrap();
    assert!((80..86).contains(&first), "shows from {first}");
    assert!(row[first..].iter().all(|&s| s == 2));
}

#[test]
fn two_close_palette_writes_leave_marks_on_dmg_and_one_does_not() {
    for (second, marks) in [(true, 2), (false, 0)] {
        let (mut ppu, mut mmio) = machine(0x91, 0x01);
        until_column(&mut ppu, &mut mmio, 50, 80);
        write_bgp(&mut ppu, &mut mmio, 0x02);
        if second {
            dots(&mut ppu, &mut mmio, 8);
            write_bgp(&mut ppu, &mut mmio, 0x01);
        }
        until_line_end(&mut ppu, &mut mmio);
        let row = shades(&ppu, 50);
        // Shade 3 is what 1 and 2 come to at once.
        assert_eq!(row.iter().filter(|&&s| s == 3).count(), marks);
        if second {
            assert_eq!(row[80], 3);
        }
    }
}

#[test]
fn palette_writes_far_apart_leave_no_marks() {
    let (mut ppu, mut mmio) = machine(0x91, 0x01);
    until_column(&mut ppu, &mut mmio, 50, 40);
    write_bgp(&mut ppu, &mut mmio, 0x02);
    dots(&mut ppu, &mut mmio, 60);
    write_bgp(&mut ppu, &mut mmio, 0x01);
    until_line_end(&mut ppu, &mut mmio);
    assert!(shades(&ppu, 50).iter().all(|&s| s != 3));
}

#[test]
fn a_palette_write_during_the_scan_is_in_force_for_the_line() {
    let (mut ppu, mut mmio) = machine(0x91, 0x01);
    while !(mmio.ly == 50 && *ppu.get_state() == State::OAMSearch && ppu.get_ticks() == 40) {
        dots(&mut ppu, &mut mmio, 1);
    }
    write_bgp(&mut ppu, &mut mmio, 0x02);
    until_column(&mut ppu, &mut mmio, 50, 0);
    until_line_end(&mut ppu, &mut mmio);
    assert!(shades(&ppu, 50).iter().all(|&s| s == 2));
}

#[test]
fn an_object_palette_write_shows_within_the_object() {
    let (mut ppu, mut mmio) = machine(0x93, 0xE4);
    mmio.write(OBP0, 0x04);
    mmio.oam[0..4].copy_from_slice(&[16 + 50, 8 + 40, 1, 0]);
    mmio.oam_write_pending = true;
    dots(&mut ppu, &mut mmio, 70224);
    until_column(&mut ppu, &mut mmio, 52, 44);
    mmio.write(OBP0, 0x08);
    ppu.on_obp_write(false, 0x08);
    ppu.on_obp_write(true, 0x0C);
    until_line_end(&mut ppu, &mut mmio);
    let row = shades(&ppu, 52);
    assert_eq!((row[39], row[40], row[47], row[48]), (0, 1, 2, 0));
}

#[test]
fn a_scroll_write_moves_the_rest_of_the_line() {
    let (mut ppu, mut mmio) = machine(0x91, 0xE4);
    for at in 0..1024u16 {
        mmio.write(0x9800 + at, (at % 2) as u8);
    }
    dots(&mut ppu, &mut mmio, 70224);
    until_column(&mut ppu, &mut mmio, 50, 80);
    mmio.write(SCX, 8);
    ppu.on_scx_write(8, &mmio);
    until_line_end(&mut ppu, &mut mmio);
    let row = shades(&ppu, 50);
    for x in 0..80 {
        assert_eq!(row[x], u8::from(x / 8 % 2 == 1), "column {x}");
    }
    for x in 104..160 {
        assert_eq!(row[x], u8::from(x / 8 % 2 == 0), "column {x}");
    }
}

#[test]
fn a_vertical_scroll_write_moves_the_rest_of_the_line() {
    let (mut ppu, mut mmio) = machine(0x91, 0xE4);
    for at in 0..1024u16 {
        mmio.write(0x9800 + at, (at / 32 % 2) as u8);
    }
    dots(&mut ppu, &mut mmio, 70224);
    // Line 50 lies in map row 6, which is blank.
    until_column(&mut ppu, &mut mmio, 50, 80);
    mmio.write(SCY, 8);
    ppu.on_scy_write(8, &mmio);
    until_line_end(&mut ppu, &mut mmio);
    let row = shades(&ppu, 50);
    assert!(row[..80].iter().all(|&s| s == 0));
    assert!(row[104..].iter().all(|&s| s == 1));
}

#[test]
fn tiles_that_met_a_train_of_writes_are_resolved_at_the_line_end() {
    let mut mmio = Mmio::new();
    mmio.cgb_hardware = true;
    mmio.write(LCD_CONTROL, 0x91);
    mmio.write(BGP, 0xE4);
    // Shade 1 is red, shade 0 black.
    mmio.bg_palette[2] = 0x1F;
    for row in 0..8u16 {
        mmio.write(0x8010 + 2 * row, 0xFF);
    }
    for at in 0..1024u16 {
        mmio.write(0x9800 + at, 1);
    }
    let mut ppu = Ppu::new();
    ppu.set_cgb_color_conversion(ColorCorrection::Linear);
    dots(&mut ppu, &mut mmio, 3 * 70224);
    until_column(&mut ppu, &mut mmio, 50, 40);
    for value in [0x81, 0x91, 0x81, 0x91] {
        mmio.write(LCD_CONTROL, value);
        ppu.handle_lcdc_write(value, &mmio);
        dots(&mut ppu, &mut mmio, 12);
    }
    until_line_end(&mut ppu, &mut mmio);

    let writes = ppu.journal.wg_hist().clone();
    assert_eq!(writes.len(), 4);
    let anchor = ppu.wg.bg_anchor_cc.unwrap();
    let tiles = ppu.journal.bg_tiles().clone();
    assert!(tiles.len() > 8);
    let row = &ppu.frames.color_fb_a()[50 * 480..51 * 480];
    let mut blank = 0;
    for t in &tiles {
        // The low byte is read two dots into the tile; only it has bits set.
        let dot = anchor + 8 * u64::from(t.n) + 2;
        let seen = writes.iter().rev().find(|w| w.0 <= dot);
        let lcdc = match seen {
            Some(w) => w.2,
            None => writes[0].1,
        };
        let red = if lcdc & 0x10 != 0 { 255 } else { 0 };
        if red == 0 {
            blank += 1;
        }
        let start = usize::from(t.first_x);
        for x in start..(start + 8).min(160) {
            assert_eq!(&row[3 * x..3 * x + 3], &[red, 0, 0], "column {x}");
        }
    }
    assert!(blank > 0);
}
