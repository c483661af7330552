//! Register writes, interrupts and the panel.

use rustyboi_ppu::mmio::{InterruptFlag, Mmio};
use rustyboi_ppu::regs::{LCDCFlags, INTERRUPT_FLAG};
use rustyboi_ppu::sgb_picture::RenderedFrame;
use rustyboi_ppu::{Ppu, LCD_CONTROL, LCD_STATUS};

#[test]
fn cgb_lcdc_enabled_write_applies_tile_data_before_full_lcdc() {
    let mut mmio = Mmio::new();
    mmio.set_cgb_features_enabled(true);

    let old_lcdc = LCDCFlags::DisplayEnable.mask()
        | LCDCFlags::SpriteDisplayEnable.mask()
        | LCDCFlags::SpriteSize.mask()
        | LCDCFlags::BGWindowTileDataSelect.mask();
    let new_lcdc = LCDCFlags::DisplayEnable.mask()
        | LCDCFlags::BGDisplay.mask()
        | LCDCFlags::SpriteDisplayEnable.mask()
        | LCDCFlags::SpriteSize.mask()
        | LCDCFlags::BGTileMapDisplaySelect.mask();

    mmio.write(LCD_CONTROL, old_lcdc);
    let mut ppu = Ppu::new();
    ppu.sync_lcdc_from_mmio(&mmio);
    ppu.handle_lcdc_write(new_lcdc, &mmio);

    ppu.step_lcdc_events(&mmio);
    assert_eq!(ppu.lcdc.reg & LCDCFlags::BGWindowTileDataSelect.mask(), 0);
    assert_eq!(ppu.lcdc.reg & LCDCFlags::BGDisplay.mask(), 0);
    assert_eq!(ppu.lcdc.reg & LCDCFlags::BGTileMapDisplaySelect.mask(), 0);
    assert!(ppu.lcdc.cgb_tile_index_is_tile_data);

    ppu.step_lcdc_events(&mmio);
    assert_eq!(ppu.lcdc.reg, new_lcdc);
    assert_ne!(ppu.lcdc.reg & LCDCFlags::BGDisplay.mask(), 0);
    assert!(!ppu.lcdc.cgb_tile_index_is_tile_data);
}

#[test]
fn dmg_lcdc_write_applies_at_once() {
    let mut mmio = Mmio::new();
    mmio.write(LCD_CONTROL, 0x91);
    let mut ppu = Ppu::new();
    ppu.sync_lcdc_from_mmio(&mmio);
    ppu.handle_lcdc_write(0xE3, &mmio);
    assert_eq!(ppu.lcdc.reg, 0xE3);
}

#[test]
fn cgb_lcd_off_write_applies_at_once() {
    let mut mmio = Mmio::new();
    mmio.set_cgb_features_enabled(true);
    mmio.write(LCD_CONTROL, 0x91);
    let mut ppu = Ppu::new();
    ppu.sync_lcdc_from_mmio(&mmio);
    ppu.handle_lcdc_write(0x11, &mmio);
    assert_eq!(ppu.lcdc.reg, 0x11);
}

#[test]
fn stat_write_with_lcd_off_keeps_pending_vblank_if() {
    let mut mmio = Mmio::new();
    let mut ppu = Ppu::new();
    ppu.disabled = true;
    ppu.clk.l154_vblank_glitch_window = true;
    mmio.request_interrupt(InterruptFlag::VBlank);
    let vblank = InterruptFlag::VBlank.mask();
    assert_ne!(mmio.read(INTERRUPT_FLAG) & vblank, 0);
    mmio.write(LCD_STATUS, 0x40);
    ppu.on_stat_register_write(&mut mmio);
    assert_ne!(
        mmio.read(INTERRUPT_FLAG) & vblank,
        0,
        "STAT write with the LCD off must not clear the pending VBlank IF"
    );
}

#[test]
fn dmg_stat_write_in_the_glitch_window_drops_vblank_if() {
    let vblank = InterruptFlag::VBlank.mask();
    for (cgb, kept) in [(false, 0), (true, vblank)] {
        let mut mmio = Mmio::new();
        mmio.set_cgb_features_enabled(cgb);
        let mut ppu = Ppu::new();
        ppu.disabled = false;
        ppu.clk.l154_vblank_glitch_window = true;
        mmio.request_interrupt(InterruptFlag::VBlank);
        ppu.on_stat_register_write(&mut mmio);
        assert_eq!(mmio.read(INTERRUPT_FLAG) & vblank, kept);
    }
}

#[test]
fn cgb_skipped_frame_repeats_within_window_then_blanks_after_long_off() {
    const CGB_WINDOW: u64 = 144 * 456 + 3640 / 2;

    fn skipped_frame_fill(diff_from_anchor: u64) -> u8 {
        let mut mmio = Mmio::new();
        mmio.set_cgb_features_enabled(true);
        let now = 4 * CGB_WINDOW;
        mmio.bulk_advance_idle(now);

        let mut ppu = Ppu::new();
        ppu.frames.fill_color_b(0x12);
        ppu.out.panel_holds_image = true;
        ppu.out.last_drive_cc = now - diff_from_anchor;
        ppu.disabled = false;
        ppu.out.frames_since_enable = 1;

        match ppu.get_frame(&mmio) {
            RenderedFrame::Color(fb) => {
                let fill = fb[0];
                assert!(fb.iter().all(|&b| b == fill), "frame is not uniformly filled");
                fill
            }
            RenderedFrame::Monochrome(_) => panic!("CGB must render a color frame"),
        }
    }

    assert_eq!(
        skipped_frame_fill(CGB_WINDOW),
        0x12,
        "in-window skip must repeat the last image"
    );
    assert_eq!(
        skipped_frame_fill(CGB_WINDOW + 1),
        0xFF,
        "past-window skip must blank (CGB white)"
    );
}
