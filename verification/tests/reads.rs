//! What the CPU and DMA see while lines are drawn.

use rustyboi_ppu::mmio::Mmio;
use rustyboi_ppu::reads::AccessEnv;
use rustyboi_ppu::{Ppu, State, BGP, LCD_CONTROL};

fn dot(ppu: &mut Ppu, mmio: &mut Mmio) {
    mmio.bulk_advance_idle(1);
    ppu.step(mmio);
}

fn running(cgb: bool) -> (Ppu, Mmio) {
    let mut mmio = Mmio::new();
    mmio.set_cgb_features_enabled(cgb);
    mmio.write(LCD_CONTROL, 0x91);
    mmio.write(BGP, 0xE4);
    let mut ppu = Ppu::new();
    for _ in 0..70224 + 30 * 456 {
        dot(&mut ppu, &mut mmio);
    }
    (ppu, mmio)
}

fn until(ppu: &mut Ppu, mmio: &mut Mmio, state: State) {
    while *ppu.get_state() != state {
        dot(ppu, mmio);
    }
}

fn env(mmio: &Mmio) -> AccessEnv {
    AccessEnv {
        is_cgb: mmio.is_cgb(),
        cgb_de: mmio.is_cgb_de(),
        double_speed: mmio.is_double_speed_mode(),
        halt_woken: false,
    }
}

#[test]
fn lcd_off_blocks_nothing() {
    let ppu = Ppu::new();
    let mmio = Mmio::new();
    for kind in 0..3 {
        for is_read in [false, true] {
            assert_eq!(ppu.cpu_access_blocked(kind, is_read, false, env(&mmio), 100), Some(false));
        }
    }
}

#[test]
fn drawing_blocks_video_memory_and_vblank_does_not() {
    for cgb in [false, true] {
        let (mut ppu, mut mmio) = running(cgb);
        until(&mut ppu, &mut mmio, State::OAMSearch);
        until(&mut ppu, &mut mmio, State::PixelTransfer);
        for _ in 0..40 {
            dot(&mut ppu, &mut mmio);
        }
        let now = mmio.master_cc();
        assert_eq!(ppu.cpu_access_blocked(0, true, true, env(&mmio), now), Some(true));
        assert_eq!(ppu.cpu_access_blocked(1, true, true, env(&mmio), now), Some(true));
        until(&mut ppu, &mut mmio, State::HBlank);
        for _ in 0..20 {
            dot(&mut ppu, &mut mmio);
        }
        let now = mmio.master_cc();
        assert_eq!(ppu.cpu_access_blocked(0, true, false, env(&mmio), now), Some(false));
        assert_eq!(ppu.cpu_access_blocked(1, true, false, env(&mmio), now), Some(false));
        until(&mut ppu, &mut mmio, State::VBlank);
        dot(&mut ppu, &mut mmio);
        let now = mmio.master_cc();
        for kind in 0..3 {
            assert_eq!(ppu.cpu_access_blocked(kind, true, false, env(&mmio), now), Some(false));
        }
    }
}

#[test]
fn stat_shows_the_mode_of_the_moment() {
    let (mut ppu, mut mmio) = running(true);
    until(&mut ppu, &mut mmio, State::PixelTransfer);
    for _ in 0..60 {
        dot(&mut ppu, &mut mmio);
    }
    assert_eq!(ppu.get_stat(&mmio, mmio.master_cc()), Some(3));
    until(&mut ppu, &mut mmio, State::HBlank);
    for _ in 0..20 {
        dot(&mut ppu, &mut mmio);
    }
    assert_eq!(ppu.get_stat(&mmio, mmio.master_cc()), Some(0));
    until(&mut ppu, &mut mmio, State::VBlank);
    for _ in 0..100 {
        dot(&mut ppu, &mut mmio);
    }
    assert_eq!(ppu.get_stat(&mmio, mmio.master_cc()), Some(1));
    assert_eq!(Ppu::new().get_stat(&mmio, mmio.master_cc()), None);
}

#[test]
fn ly_reads_follow_the_line() {
    let (mut ppu, mut mmio) = running(true);
    until(&mut ppu, &mut mmio, State::PixelTransfer);
    let ly = mmio.ly;
    let read = ppu.get_ly_reg_at_cc(&mmio, mmio.master_cc());
    assert!(read.is_none() || read == Some(ly));
    assert_eq!(Ppu::new().get_ly_reg_at_cc(&mmio, mmio.master_cc()), None);
}

#[test]
fn hblank_dma_has_its_window_after_drawing() {
    let (mut ppu, mut mmio) = running(true);
    until(&mut ppu, &mut mmio, State::OAMSearch);
    until(&mut ppu, &mut mmio, State::PixelTransfer);
    for _ in 0..30 {
        dot(&mut ppu, &mut mmio);
    }
    assert_eq!(ppu.hdma_period(false), Some(false));
    assert_eq!(ppu.hdma_period_unhalt(mmio.master_cc(), false), Some(false));
    until(&mut ppu, &mut mmio, State::HBlank);
    for _ in 0..20 {
        dot(&mut ppu, &mut mmio);
    }
    assert_eq!(ppu.hdma_period_unhalt(mmio.master_cc(), false), Some(true));
    assert_eq!(ppu.hdma_period_halt(mmio.master_cc(), false), Some(true));
    let end = ppu.m0_time_master_cc().unwrap();
    assert_eq!(ppu.hdma_period_halt(end - 1, false), Some(false));
    assert_eq!(ppu.hdma_period_halt(end + 206, false), Some(true));
    assert_eq!(ppu.hdma_period_halt(end + 208, false), Some(false));
    assert_eq!(ppu.hdma_period_halt(end + 408, true), Some(true));
    assert_eq!(ppu.hdma_period_halt(end + 411, true), Some(false));
    assert_eq!(ppu.hdma_period_halt(u64::MAX, false), Some(false));
    assert_eq!(ppu.hdma_period_kick(u64::MAX, false), Some(false));
    assert_eq!(Ppu::new().hdma_period_unhalt(mmio.master_cc(), false), None);
}

#[test]
fn the_fetcher_is_on_the_bus_while_drawing() {
    let (mut ppu, mut mmio) = running(false);
    until(&mut ppu, &mut mmio, State::HBlank);
    ppu.update_dma_fetcher_bus(&mut mmio);
    assert!(!mmio.fetcher_bus.2);
    until(&mut ppu, &mut mmio, State::OAMSearch);
    until(&mut ppu, &mut mmio, State::PixelTransfer);
    for _ in 0..40 {
        dot(&mut ppu, &mut mmio);
    }
    ppu.update_dma_fetcher_bus(&mut mmio);
    assert!(mmio.fetcher_bus.2);
}

#[test]
fn boot_leaves_the_unit_in_vertical_blank() {
    for (cgb, dmg0, line, at) in [
        (true, false, 144, 164),
        (false, true, 145, 198),
        (false, false, 153, 396),
    ] {
        let mut mmio = Mmio::new();
        mmio.set_cgb_features_enabled(cgb);
        mmio.write(LCD_CONTROL, 0x91);
        let mut ppu = Ppu::new();
        ppu.sync_lcdc_from_mmio(&mmio);
        ppu.set_post_bios_state(&mut mmio, dmg0);
        assert!(!ppu.is_disabled());
        assert_eq!(*ppu.get_state(), State::VBlank);
        assert_eq!(ppu.get_ticks(), at);
        assert_eq!(mmio.ly, if line == 153 { 0 } else { line });
    }
}
