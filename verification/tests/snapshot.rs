//! Saving the unit and taking it up again.

use rustyboi_ppu::mmio::{InterruptFlag, Mmio};
use rustyboi_ppu::sgb_picture::RenderedFrame;
use rustyboi_ppu::snapshot::PpuParts;
use rustyboi_ppu::{BgPixel, Fifo, Ppu, State, BGP, LCD_CONTROL, LCD_STATUS, OBP0, WX, WY};

fn dots(ppu: &mut Ppu, mmio: &mut Mmio, n: u32) {
    for _ in 0..n {
        mmio.bulk_advance_idle(1);
        ppu.step(mmio);
    }
}

fn machine(cgb: bool) -> (Ppu, Mmio) {
    let mut mmio = Mmio::new();
    mmio.set_cgb_features_enabled(cgb);
    mmio.write(LCD_CONTROL, 0xF3);
    mmio.write(BGP, 0xE4);
    mmio.write(OBP0, 0xE4);
    mmio.write(LCD_STATUS, 0x28);
    for at in 0..0x800u16 {
        mmio.write(0x8000 + at, (at * 11) as u8);
    }
    for at in 0..0x400u16 {
        mmio.write(0x9800 + at, (at % 19) as u8);
        mmio.write(0x9C00 + at, (at % 7) as u8);
    }
    for i in 0..40u8 {
        let at = usize::from(i) * 4;
        mmio.oam[at..at + 4].copy_from_slice(&[12 + i * 4, 7 + i * 9, i, i << 4]);
    }
    for i in 0..64 {
        mmio.bg_palette[i] = (i * 3) as u8;
        mmio.obj_palette[i] = (i * 5) as u8;
    }
    mmio.oam_write_pending = true;
    mmio.write(WX, 90);
    mmio.write(WY, 60);
    let mut ppu = Ppu::new();
    ppu.on_wy_write(60, &mmio);
    dots(&mut ppu, &mut mmio, 3 * 70224);
    (ppu, mmio)
}

/// What shows over `n` dots: LY, STAT, interrupts and the picture.
fn run(ppu: &mut Ppu, mmio: &mut Mmio, n: u32) -> (Vec<(u8, u8, u8)>, Vec<u8>) {
    let mut shown = Vec::new();
    for _ in 0..n {
        dots(ppu, mmio, 1);
        shown.push((mmio.ly, mmio.stat, mmio.irq & InterruptFlag::Lcd.mask()));
        mmio.irq = 0;
    }
    let picture = match ppu.get_frame(mmio) {
        RenderedFrame::Monochrome(fb) => fb,
        RenderedFrame::Color(fb) => fb,
    };
    (shown, picture)
}

#[test]
fn a_restored_unit_goes_on_alike() {
    for cgb in [false, true] {
        for at in [0, 50 * 456 + 20, 50 * 456 + 150, 70 * 456 + 200, 100 * 456 + 400, 150 * 456] {
            let (mut kept, mut kept_mmio) = machine(cgb);
            dots(&mut kept, &mut kept_mmio, at);
            let expected = run(&mut kept, &mut kept_mmio, 2 * 70224);

            let (mut saved, mut mmio) = machine(cgb);
            dots(&mut saved, &mut mmio, at);
            let mut restored = Ppu::from_parts(saved.into_parts()).unwrap();
            let got = run(&mut restored, &mut mmio, 2 * 70224);
            assert!(got.0 == expected.0, "cgb {cgb} at {at}: LY, STAT or interrupts differ");
            assert!(got.1 == expected.1, "cgb {cgb} at {at}: pictures differ");
        }
    }
}

#[test]
fn scratch_is_not_saved() {
    let (mut ppu, mut mmio) = machine(true);
    ppu.set_fetch_debug_events_enabled(true);
    dots(&mut ppu, &mut mmio, 456);
    assert!(ppu.out.panel_holds_image);
    let parts = ppu.into_parts();
    assert_eq!((parts.clk.sched_min, parts.clk.fast_dots_left, parts.clk.fast_hold), (0, 0, 0));
    assert_eq!((parts.out.last_drive_cc, parts.out.panel_holds_image), (0, false));
    let mut restored = Ppu::from_parts(parts).unwrap();
    assert!(restored.take_fetch_debug_events().is_empty());
}

#[test]
fn malformed_parts_are_refused() {
    fn refused(spoil: fn(&mut PpuParts)) -> bool {
        let mut parts = Ppu::new().into_parts();
        spoil(&mut parts);
        Ppu::from_parts(parts).is_none()
    }
    assert!(!refused(|_| {}));
    assert!(refused(|p| p.x = 161));
    assert!(refused(|p| p.clk.line_cycle = 456));
    assert!(refused(|p| p.clk.internal_ly_val = 154));
    assert!(refused(|p| p.objs.next_sprite_fetch_index = 1));
    assert!(refused(|p| p.fetcher.fifo = vec![BgPixel { color: 0, attrs: 0 }; 17]));
    assert!(refused(|p| p.oam_reader.last_change = 81));
    assert!(refused(|p| {
        p.frames.fb_a.pop();
    }));
}

#[test]
fn a_queue_is_its_pixels() {
    let mut fifo = Fifo::new();
    for color in 0..5 {
        fifo.push(BgPixel { color, attrs: 0 });
    }
    fifo.pop().unwrap();
    fifo.pop().unwrap();
    let colors: Vec<u8> = fifo.pixels().iter().map(|p| p.color).collect();
    assert_eq!(colors, [2, 3, 4]);
    let mut again = Fifo::from_pixels(fifo.pixels());
    assert_eq!(again.size(), 3);
    assert_eq!(again.pop().unwrap().color, 2);
}

#[test]
fn the_state_of_a_line_is_saved() {
    let (mut ppu, mut mmio) = machine(false);
    while !(mmio.ly == 80 && *ppu.get_state() == State::PixelTransfer && ppu.get_x() == 100) {
        dots(&mut ppu, &mut mmio, 1);
    }
    let (x, ticks, size) = (ppu.get_x(), ppu.get_ticks(), ppu.get_fetcher_fifo_size());
    let count = ppu.get_sprites_on_line_count();
    let restored = Ppu::from_parts(ppu.into_parts()).unwrap();
    assert_eq!((restored.get_x(), restored.get_ticks()), (x, ticks));
    assert_eq!(restored.get_fetcher_fifo_size(), size);
    assert_eq!(restored.get_sprites_on_line_count(), count);
}
