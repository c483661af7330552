//! A verified Game Boy picture processing unit.

pub mod access_laws;
pub mod arith;
pub mod bus_laws;
pub mod codec_laws;
pub mod color;
pub mod color_mix;
pub mod controller;
pub mod dirty_probe;
pub mod draw_laws;
pub mod fast;
pub mod fb_rle;
pub mod fb_wire;
pub mod fetcher;
pub mod fifo;
pub mod frame_laws;
pub mod frame_out;
pub mod frames;
pub mod glitch;
pub mod halt_laws;
pub mod hdma;
pub mod history;
pub mod history_laws;
pub mod irq_laws;
pub mod journal;
pub mod lcdc;
pub mod lcdc_write;
pub mod line_objs;
pub mod ly_counter;
pub mod m3_length;
pub mod mmio;
pub mod mode3;
pub mod mode3_draw;
pub mod mode3_fetch;
pub mod mode3_window;
pub mod modes;
pub mod oam_reader;
pub mod oam_scan;
pub mod object_laws;
pub mod objects;
pub mod palette_writes;
pub mod phases;
pub mod pixel_laws;
pub mod power;
pub mod probe_laws;
pub mod ranges;
pub mod read_laws;
pub mod reader_laws;
pub mod reads;
pub mod register_laws;
pub mod regs;
pub mod replot;
pub mod scan_laws;
pub mod sgb;
pub mod sgb_laws;
pub mod sgb_picture;
pub mod snapshot;
pub mod stat_irq;
pub mod state;
pub mod step_laws;
pub mod switch_laws;
pub mod tile_laws;
pub mod timing;
pub mod window_laws;
pub mod write_laws;
pub mod write_ranges;

pub use dirty_probe::{DirtyLineProbe, WatchedReg};
pub use fifo::{BgPixel, Fifo};
pub use journal::{FetchDebugEvent, FetchDebugEventKind, PixelDebugEvent};
pub use objects::Sprite;
pub use regs::{
    BGP, FRAMEBUFFER_SIZE, LCD_CONTROL, LCD_STATUS, LY, LYC, OBP0, OBP1, SCX, SCY,
    SGB_FRAME_HEIGHT, SGB_FRAME_SIZE, SGB_FRAME_WIDTH, WX, WY,
};
pub use sgb_picture::SgbBorderLayers;
pub use state::{ColorCorrection, Ppu, State};
