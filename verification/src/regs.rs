//! Register addresses, LCDC bits and screen dimensions.

use vstd::prelude::*;

verus! {

pub const LCD_CONTROL: u16 = 0xFF40;
pub const LCD_STATUS: u16 = 0xFF41;
pub const SCY: u16 = 0xFF42;
pub const SCX: u16 = 0xFF43;
pub const LY: u16 = 0xFF44;
pub const LYC: u16 = 0xFF45;
pub const BGP: u16 = 0xFF47;
pub const OBP0: u16 = 0xFF48;
pub const OBP1: u16 = 0xFF49;
pub const WY: u16 = 0xFF4A;
pub const WX: u16 = 0xFF4B;
/// Interrupt request flags.
pub const INTERRUPT_FLAG: u16 = 0xFF0F;
/// VRAM bank select.
pub const REG_VBK: u16 = 0xFF4F;

/// Pixels on the screen.
pub const FRAMEBUFFER_SIZE: usize = 160 * 144;
/// Size of a Super Game Boy picture, border included.
pub const SGB_FRAME_WIDTH: usize = 256;
pub const SGB_FRAME_HEIGHT: usize = 224;
pub const SGB_FRAME_SIZE: usize = SGB_FRAME_WIDTH * SGB_FRAME_HEIGHT;
/// The Game Boy screen inside the Super Game Boy picture.
pub const SGB_WINDOW_X_START: usize = 48;
pub const SGB_WINDOW_X_END: usize = 208;
pub const SGB_WINDOW_Y_START: usize = 40;
pub const SGB_WINDOW_Y_END: usize = 184;

/// Dots in a line, lines in a frame, dots in a frame.
pub const LCD_CYCLES_PER_LINE: u32 = 456;
pub const LCD_LINES_PER_FRAME: u32 = 154;
pub const LCD_CYCLES_PER_FRAME: u64 = 70224;

/// The event time of an event that is not scheduled.
pub const DISABLED_TIME: u64 = 0xFFFF_FFFF_FFFF_FFFF;

/// The dot of a line on which mode 3 starts to draw.
pub const DMG_PIXEL_TRANSFER_ARM_DOT: u128 = 80;
pub const CGB_PIXEL_TRANSFER_ARM_DOT: u128 = 82;
/// Dots from there until the first tile can leave the queue.
pub const DMG_PIXEL_TRANSFER_WARMUP: u8 = 4;
pub const CGB_PIXEL_TRANSFER_WARMUP: u8 = 2;

/// Clock readings stay below this. It takes the machine several thousand years
/// to get there.
pub const CLOCK_LIMIT: u64 = 0x0800_0000_0000_0000;

/// The bits of LCDC.
#[derive(Clone, Copy, Debug, PartialEq, Eq, Structural)]
pub enum LCDCFlags {
    BGDisplay,
    SpriteDisplayEnable,
    SpriteSize,
    BGTileMapDisplaySelect,
    BGWindowTileDataSelect,
    WindowDisplayEnable,
    WindowTileMapDisplaySelect,
    DisplayEnable,
}

impl LCDCFlags {
    /// The flag's bit in the register.
    #[verifier::allow_in_spec]
    pub fn mask(self) -> u8
        returns
            match self {
                LCDCFlags::BGDisplay => 0x01u8,
                LCDCFlags::SpriteDisplayEnable => 0x02,
                LCDCFlags::SpriteSize => 0x04,
                LCDCFlags::BGTileMapDisplaySelect => 0x08,
                LCDCFlags::BGWindowTileDataSelect => 0x10,
                LCDCFlags::WindowDisplayEnable => 0x20,
                LCDCFlags::WindowTileMapDisplaySelect => 0x40,
                LCDCFlags::DisplayEnable => 0x80,
            },
    {
        match self {
            LCDCFlags::BGDisplay => 0x01,
            LCDCFlags::SpriteDisplayEnable => 0x02,
            LCDCFlags::SpriteSize => 0x04,
            LCDCFlags::BGTileMapDisplaySelect => 0x08,
            LCDCFlags::BGWindowTileDataSelect => 0x10,
            LCDCFlags::WindowDisplayEnable => 0x20,
            LCDCFlags::WindowTileMapDisplaySelect => 0x40,
            LCDCFlags::DisplayEnable => 0x80,
        }
    }
}

/// Whether the flag is set in the register value `lcdc`.
#[verifier::allow_in_spec]
pub fn lcdc_has(lcdc: u8, f: LCDCFlags) -> bool
    returns
        lcdc & f.mask() != 0,
{
    (lcdc & f.mask()) != 0
}

/// Master-clock cycles in some dots: two to a dot at double speed, otherwise
/// one.
pub open spec fn dots_to_cycles(dots: int, ds: bool) -> int {
    if ds { dots * 2 } else { dots }
}

/// Whole dots in some master-clock cycles.
pub open spec fn cycles_to_dots(cycles: int, ds: bool) -> int {
    if ds { cycles / 2 } else { cycles }
}

/// A 64-bit clock value read as signed: differences of clock values that came
/// out below zero stand in the upper half.
pub open spec fn signed(x: u64) -> int {
    if x < 0x8000_0000_0000_0000 { x as int } else { x - 0x1_0000_0000_0000_0000 }
}

pub fn as_signed(x: u64) -> (r: i64)
    ensures
        r == signed(x),
{
    let r: i64 = x as i64;
    assert(r == if x < 0x8000_0000_0000_0000u64 {
        x as int
    } else {
        x - 0x1_0000_0000_0000_0000int
    }) by (bit_vector)
        requires
            r == x as i64,
    ;
    r
}

/// `cc` dots at the given speed, in master-clock cycles.
pub fn scaled(v: i64, ds: bool) -> (r: i64)
    requires
        -0x4000_0000_0000_0000 <= v < 0x4000_0000_0000_0000,
    ensures
        r == dots_to_cycles(v as int, ds),
{
    if ds { v * 2 } else { v }
}

/// `max(v, 0)` as a clock value.
pub fn at_least_zero(v: i64) -> (r: u64)
    ensures
        r == at_least_zero_spec(v as int),
{
    if v < 0 { 0 } else { v as u64 }
}

pub open spec fn at_least_zero_spec(v: int) -> int {
    if v < 0 { 0 } else { v }
}

} // verus!
