//! The tile fetcher on CGB.

use rustyboi_ppu::fetcher::{FetchPos, Fetcher, FetcherDebugEventKind, FetcherLcdcState};
use rustyboi_ppu::mmio::Mmio;
use rustyboi_ppu::regs::{LCDCFlags, REG_VBK};
use rustyboi_ppu::{LCD_CONTROL, SCX, SCY};

const TILE_MAP_9800_BASE: u16 = 0x9800;
const TILE_DATA_8000_BASE: u16 = 0x8000;
const TILE_ID: u8 = 0x02;
const TILE_DATA_ADDR: u16 = TILE_DATA_8000_BASE + (TILE_ID as u16) * 16;

fn cgb_mmio() -> Mmio {
    let mut mmio = Mmio::new();
    mmio.set_cgb_features_enabled(true);
    mmio.write(LCD_CONTROL, LCDCFlags::BGWindowTileDataSelect.mask());
    mmio.write(SCX, 0);
    mmio.write(SCY, 0);
    mmio.write_ly_from_ppu(0);
    mmio
}

fn write_bank0_tile_number_and_data(mmio: &mut Mmio, low_byte: u8, high_byte: u8) {
    mmio.write(REG_VBK, 0);
    mmio.write(TILE_MAP_9800_BASE, TILE_ID);
    mmio.write(TILE_DATA_ADDR, low_byte);
    mmio.write(TILE_DATA_ADDR + 1, high_byte);
}

fn lcdc_state(mmio: &Mmio, cgb_tile_index_is_tile_data: bool) -> FetcherLcdcState {
    FetcherLcdcState {
        lcdc: mmio.read(LCD_CONTROL),
        cgb_tile_index_is_tile_data,
        or_lcdc: None,
        scy_bus: None,
        scx_bus: None,
    }
}

#[test]
fn cgb_fetch_uses_bank0_tile_numbers_when_cpu_vbk_is_bank1() {
    let mut mmio = cgb_mmio();
    write_bank0_tile_number_and_data(&mut mmio, 0b1010_1010, 0b0101_0101);

    mmio.write(REG_VBK, 1);
    mmio.write(TILE_MAP_9800_BASE, 0x07);
    mmio.write(TILE_DATA_ADDR, 0x11);
    mmio.write(TILE_DATA_ADDR + 1, 0x22);

    let mut fetcher = Fetcher::new();
    let state = lcdc_state(&mmio, false);
    let tile_number = fetcher.step(&mmio, state, FetchPos::default()).unwrap();
    assert_eq!(tile_number.kind, FetcherDebugEventKind::TileNumber);
    assert_eq!(tile_number.tile_num, TILE_ID);
    assert_eq!(tile_number.tile_attributes, 0x07);

    let tile_data_low = fetcher.step(&mmio, state, FetchPos::default()).unwrap();
    assert_eq!(tile_data_low.kind, FetcherDebugEventKind::TileDataLow);
    assert_eq!(tile_data_low.value, Some(0b1010_1010));

    let tile_data_high = fetcher.step(&mmio, state, FetchPos::default()).unwrap();
    assert_eq!(tile_data_high.kind, FetcherDebugEventKind::TileDataHigh);
    assert_eq!(tile_data_high.value, Some(0b0101_0101));
}

#[test]
fn cgb_fetch_uses_attribute_bank_for_tile_data() {
    let mut mmio = cgb_mmio();
    write_bank0_tile_number_and_data(&mut mmio, 0x11, 0x22);

    mmio.write(REG_VBK, 1);
    mmio.write(TILE_MAP_9800_BASE, 0x08);
    mmio.write(TILE_DATA_ADDR, 0x33);
    mmio.write(TILE_DATA_ADDR + 1, 0x44);

    let mut fetcher = Fetcher::new();
    let state = lcdc_state(&mmio, false);
    let tile_number = fetcher.step(&mmio, state, FetchPos::default()).unwrap();
    assert_eq!(tile_number.kind, FetcherDebugEventKind::TileNumber);
    assert_eq!(tile_number.tile_num, TILE_ID);
    assert_eq!(tile_number.tile_attributes, 0x08);

    let tile_data_low = fetcher.step(&mmio, state, FetchPos::default()).unwrap();
    assert_eq!(tile_data_low.kind, FetcherDebugEventKind::TileDataLow);
    assert_eq!(tile_data_low.value, Some(0x33));

    let tile_data_high = fetcher.step(&mmio, state, FetchPos::default()).unwrap();
    assert_eq!(tile_data_high.kind, FetcherDebugEventKind::TileDataHigh);
    assert_eq!(tile_data_high.value, Some(0x44));
}

#[test]
fn cgb_lcdc_tile_data_falling_edge_can_return_tile_index_as_data() {
    let mut mmio = cgb_mmio();
    write_bank0_tile_number_and_data(&mut mmio, 0xFF, 0xFF);

    mmio.write(
        LCD_CONTROL,
        LCDCFlags::DisplayEnable.mask() | LCDCFlags::BGWindowTileDataSelect.mask(),
    );
    mmio.write(LCD_CONTROL, LCDCFlags::DisplayEnable.mask());

    let mut fetcher = Fetcher::new();
    let state = lcdc_state(&mmio, true);
    let tile_number = fetcher.step(&mmio, state, FetchPos::default()).unwrap();
    assert!(tile_number.tile_index_is_tile_data);

    let tile_data_low = fetcher.step(&mmio, state, FetchPos::default()).unwrap();
    assert_eq!(tile_data_low.kind, FetcherDebugEventKind::TileDataLow);
    assert_eq!(tile_data_low.value, Some(TILE_ID));

    let tile_data_high = fetcher.step(&mmio, state, FetchPos::default()).unwrap();
    assert_eq!(tile_data_high.kind, FetcherDebugEventKind::TileDataHigh);
    assert_eq!(tile_data_high.value, Some(TILE_ID));

    let state = lcdc_state(&mmio, false);
    assert!(!state.cgb_tile_index_is_tile_data);
}

#[test]
fn four_steps_queue_a_tile_in_order() {
    let mut mmio = cgb_mmio();
    write_bank0_tile_number_and_data(&mut mmio, 0b1100_0101, 0b1010_0001);
    let mut fetcher = Fetcher::new();
    let state = lcdc_state(&mmio, false);
    for _ in 0..4 {
        fetcher.step(&mmio, state, FetchPos::default());
    }
    assert_eq!(fetcher.get_fifo_size(), 8);
    let colors: Vec<u8> = (0..8).map(|_| fetcher.pop_pixel().unwrap().color).collect();
    assert_eq!(colors, [3, 1, 2, 0, 0, 1, 0, 3]);
    assert!(fetcher.pop_pixel().is_none());
    assert_eq!(fetcher.get_tile_index(), 1);
}

#[test]
fn flipped_tiles_are_read_from_the_other_end() {
    let mut mmio = cgb_mmio();
    mmio.write(REG_VBK, 0);
    mmio.write(TILE_MAP_9800_BASE, TILE_ID);
    // The last row of the tile, which a vertical flip puts on line 0.
    mmio.write(TILE_DATA_ADDR + 14, 0b1000_0000);
    mmio.write(REG_VBK, 1);
    mmio.write(TILE_MAP_9800_BASE, 0x60);
    let mut fetcher = Fetcher::new();
    let state = lcdc_state(&mmio, false);
    for _ in 0..4 {
        fetcher.step(&mmio, state, FetchPos::default());
    }
    let colors: Vec<u8> = (0..8).map(|_| fetcher.pop_pixel().unwrap().color).collect();
    assert_eq!(colors, [0, 0, 0, 0, 0, 0, 0, 1]);
}

#[test]
fn tile_addresses_follow_the_select_bit() {
    let fetcher = Fetcher::new();
    let select = LCDCFlags::BGWindowTileDataSelect.mask();
    assert_eq!(fetcher.get_tile_data_address(0, 0, select), 0x8000);
    assert_eq!(fetcher.get_tile_data_address(0xFF, 7, select), 0x8FFE);
    assert_eq!(fetcher.get_tile_data_address(0, 0, 0), 0x9000);
    assert_eq!(fetcher.get_tile_data_address(0x7F, 7, 0), 0x97FE);
    assert_eq!(fetcher.get_tile_data_address(0x80, 0, 0), 0x8800);
    assert_eq!(fetcher.get_tile_data_address(0xFF, 7, 0), 0x8FFE);
}
