//! The memory bus as the picture unit sees it.

use vstd::prelude::*;

use crate::regs::{
    BGP, INTERRUPT_FLAG, LCD_CONTROL, LCD_STATUS, LY, LYC, OBP0, OBP1, REG_VBK, SCX, SCY, WX, WY,
};
use crate::sgb::Sgb;

verus! {

/// Interrupts that the picture unit raises.
#[derive(Clone, Copy, Debug, PartialEq, Eq, Structural)]
pub enum InterruptFlag {
    VBlank,
    Lcd,
}

impl InterruptFlag {
    #[verifier::allow_in_spec]
    pub fn mask(self) -> u8
        returns
            match self {
                InterruptFlag::VBlank => 0x01u8,
                InterruptFlag::Lcd => 0x02,
            },
    {
        match self {
            InterruptFlag::VBlank => 0x01,
            InterruptFlag::Lcd => 0x02,
        }
    }
}

/// The source of a staged LCD interrupt: the start of vertical blank.
pub const LCD_RAISE_M1: u8 = 1;

/// The colours an AGB panel shows, indexed by 15-bit colour word.
#[derive(Debug, Clone)]
pub struct AgbCurve {
    pub table: Vec<[u8; 3]>,
}

impl AgbCurve {
    pub open spec fn wf(&self) -> bool {
        self.table@.len() == 32768
    }
}

/// How the CPU last came out of HALT, as far as register reads depend on it.
#[derive(Clone, Copy, Debug, PartialEq, Eq, Structural)]
pub struct HaltWake {
    pub skew: bool,
    pub hdma: bool,
    pub grid_cgb: bool,
    pub vblank: bool,
    pub m0m2: bool,
    pub m2_stall_charged_cgb: bool,
    pub ssds_ly_advance: bool,
    pub cgb_m0_ly_advance: Option<u8>,
}

impl Default for HaltWake {
    fn default() -> (r: Self)
        ensures
            r == HaltWake::none(),
    {
        HaltWake {
            skew: false,
            hdma: false,
            grid_cgb: false,
            vblank: false,
            m0m2: false,
            m2_stall_charged_cgb: false,
            ssds_ly_advance: false,
            cgb_m0_ly_advance: None,
        }
    }
}

impl HaltWake {
    /// No wake-up to account for.
    pub open spec fn none() -> HaltWake {
        HaltWake {
            skew: false,
            hdma: false,
            grid_cgb: false,
            vblank: false,
            m0m2: false,
            m2_stall_charged_cgb: false,
            ssds_ly_advance: false,
            cgb_m0_ly_advance: None,
        }
    }
}

/// Registers, video memory and machine state on the picture unit's side of
/// the bus.
pub struct Mmio {
    pub lcdc: u8,
    pub stat: u8,
    pub scy: u8,
    pub scx: u8,
    pub ly: u8,
    pub lyc: u8,
    pub bgp: u8,
    pub obp0: u8,
    pub obp1: u8,
    pub wy: u8,
    pub wx: u8,
    pub vbk: u8,
    /// Requested interrupts.
    pub irq: u8,
    pub vram0: [u8; 8192],
    pub vram1: [u8; 8192],
    pub oam: [u8; 160],
    pub bg_palette: [u8; 64],
    pub obj_palette: [u8; 64],
    /// The machine is a CGB or an AGB.
    pub cgb_hardware: bool,
    /// The cartridge runs in CGB mode.
    pub cgb_features: bool,
    /// A late CGB revision.
    pub cgb_de: bool,
    /// Present when the machine is an AGB.
    pub agb_curve: Option<AgbCurve>,
    pub double_speed: bool,
    pub master_cc: u64,
    pub halt: HaltWake,
    /// An OAM DMA is writing.
    pub oam_dma_window: bool,
    /// The DMA is frozen and its bytes merge into the scan (MGB).
    pub mgb_frozen_merge: bool,
    /// Tile number and attributes the frozen DMA puts in place, by object.
    pub mgb_frozen_tile_attr: [Option<(u8, u8)>; 40],
    /// OAM was written since the picture unit last looked.
    pub oam_write_pending: bool,
    pub staged_raise_kind: u8,
    /// When the HDMA tracker next has to look.
    pub hdma_tracker_sleep: u64,
    /// The fetcher's last address and bank, and whether it holds the bus.
    pub fetcher_bus: (u16, u8, bool),
    /// The address of the tile-map prefetch, and whether there is one.
    pub prefetch_bus: (u16, bool),
    pub sgb: Option<Sgb>,
}

/// Reads the object positions out of an OAM image.
pub open spec fn oam_positions(oam: Seq<u8>) -> Seq<u8> {
    Seq::new(80, |i: int| oam[(i / 2) * 4 + i % 2])
}

/// STAT after a CPU write of `value`: only the interrupt enables change.
pub open spec fn stat_written(stat: u8, value: u8) -> u8 {
    (stat & 0x87) | (value & 0x78)
}

impl Mmio {
    pub open spec fn wf(&self) -> bool {
        &&& self.sgb matches Some(s) ==> s.wf()
        &&& self.agb_curve matches Some(c) ==> c.wf()
    }

    /// A DMG with cleared memory.
    pub fn new() -> (r: Self)
        ensures
            r.wf(),
            !r.is_cgb() && !r.is_cgb_features_enabled() && !r.is_agb() && !r.double_speed,
            r.lcdc == 0 && r.stat == 0 && r.ly == 0 && r.lyc == 0 && r.irq == 0,
            r.scy == 0 && r.scx == 0 && r.wy == 0 && r.wx == 0,
            r.bgp == 0 && r.obp0 == 0 && r.obp1 == 0 && r.vbk == 0,
            r.master_cc == 0 && r.hdma_tracker_sleep == 0 && r.staged_raise_kind == 0,
            !r.cgb_hardware && !r.cgb_features && !r.cgb_de,
            r.sgb is None && r.agb_curve is None,
            !r.oam_dma_window && !r.oam_write_pending && !r.mgb_frozen_merge,
            r.fetcher_bus == (0xFFFFu16, 0u8, false) && r.prefetch_bus == (0u16, false),
            r.halt == HaltWake::none(),
            forall|i: int| 0 <= i < 8192 ==> r.vram0[i] == 0 && r.vram1[i] == 0,
            forall|i: int| 0 <= i < 160 ==> r.oam[i] == 0,
            forall|i: int| 0 <= i < 64 ==> r.bg_palette[i] == 0 && r.obj_palette[i] == 0,
            forall|i: int| 0 <= i < 40 ==> r.mgb_frozen_tile_attr[i] is None,
    {
        Mmio {
            lcdc: 0,
            stat: 0,
            scy: 0,
            scx: 0,
            ly: 0,
            lyc: 0,
            bgp: 0,
            obp0: 0,
            obp1: 0,
            wy: 0,
            wx: 0,
            vbk: 0,
            irq: 0,
            vram0: [0; 8192],
            vram1: [0; 8192],
            oam: [0; 160],
            bg_palette: [0; 64],
            obj_palette: [0; 64],
            cgb_hardware: false,
            cgb_features: false,
            cgb_de: false,
            agb_curve: None,
            double_speed: false,
            master_cc: 0,
            halt: HaltWake::default(),
            oam_dma_window: false,
            mgb_frozen_merge: false,
            mgb_frozen_tile_attr: [None; 40],
            oam_write_pending: false,
            staged_raise_kind: 0,
            hdma_tracker_sleep: 0,
            fetcher_bus: (0xFFFF, 0, false),
            prefetch_bus: (0, false),
            sgb: None,
        }
    }

    #[verifier::allow_in_spec]
    pub fn is_cgb(&self) -> bool
        returns
            self.cgb_hardware,
    {
        self.cgb_hardware
    }

    #[verifier::allow_in_spec]
    pub fn is_cgb_features_enabled(&self) -> bool
        returns
            self.cgb_features,
    {
        self.cgb_features
    }

    #[verifier::allow_in_spec]
    pub fn is_cgb_de(&self) -> bool
        returns
            self.cgb_de,
    {
        self.cgb_de
    }

    #[verifier::allow_in_spec]
    pub fn is_agb(&self) -> bool
        returns
            self.agb_curve is Some,
    {
        self.agb_curve.is_some()
    }

    #[verifier::allow_in_spec]
    pub fn is_double_speed_mode(&self) -> bool
        returns
            self.double_speed,
    {
        self.double_speed
    }

    #[verifier::allow_in_spec]
    pub fn master_cc(&self) -> u64
        returns
            self.master_cc,
    {
        self.master_cc
    }

    /// Turns CGB mode on or off; CGB mode needs CGB hardware.
    pub fn set_cgb_features_enabled(&mut self, enabled: bool)
        ensures
            *final(self) == (Mmio {
                cgb_features: enabled,
                cgb_hardware: old(self).cgb_hardware || enabled,
                ..*old(self)
            }),
    {
        self.cgb_features = enabled;
        self.cgb_hardware = self.cgb_hardware || enabled;
    }

    /// Lets the master clock run.
    pub fn bulk_advance_idle(&mut self, cycles: u64)
        requires
            old(self).master_cc + cycles <= u64::MAX,
        ensures
            *final(self) == (Mmio {
                master_cc: (old(self).master_cc + cycles) as u64,
                ..*old(self)
            }),
    {
        self.master_cc = self.master_cc + cycles;
    }

    /// What a CPU read of `addr` returns. OAM reads as 0xFF while a DMA
    /// writes it; anything off this side of the bus reads as 0xFF.
    #[verifier::opaque]
    pub open spec fn spec_read(&self, addr: u16) -> u8 {
        if 0x8000 <= addr < 0xA000 {
            if self.vbk & 1 == 1 {
                self.vram1[addr - 0x8000]
            } else {
                self.vram0[addr - 0x8000]
            }
        } else if 0xFE00 <= addr < 0xFEA0 {
            if self.oam_dma_window {
                0xFFu8
            } else {
                self.oam[addr - 0xFE00]
            }
        } else if addr == LCD_CONTROL {
            self.lcdc
        } else if addr == LCD_STATUS {
            self.stat
        } else if addr == SCY {
            self.scy
        } else if addr == SCX {
            self.scx
        } else if addr == LY {
            self.ly
        } else if addr == LYC {
            self.lyc
        } else if addr == BGP {
            self.bgp
        } else if addr == OBP0 {
            self.obp0
        } else if addr == OBP1 {
            self.obp1
        } else if addr == WY {
            self.wy
        } else if addr == WX {
            self.wx
        } else if addr == INTERRUPT_FLAG {
            self.irq
        } else if addr == REG_VBK {
            self.vbk
        } else {
            0xFF
        }
    }

    #[verifier::when_used_as_spec(spec_read)]
    pub fn read(&self, addr: u16) -> (r: u8)
        ensures
            r == self.spec_read(addr),
    {
        reveal(Mmio::spec_read);
        if 0x8000 <= addr && addr < 0xA000 {
            if self.vbk & 1 == 1 {
                self.vram1[(addr - 0x8000) as usize]
            } else {
                self.vram0[(addr - 0x8000) as usize]
            }
        } else if 0xFE00 <= addr && addr < 0xFEA0 {
            if self.oam_dma_window {
                0xFF
            } else {
                self.oam[(addr - 0xFE00) as usize]
            }
        } else if addr == LCD_CONTROL {
            self.lcdc
        } else if addr == LCD_STATUS {
            self.stat
        } else if addr == SCY {
            self.scy
        } else if addr == SCX {
            self.scx
        } else if addr == LY {
            self.ly
        } else if addr == LYC {
            self.lyc
        } else if addr == BGP {
            self.bgp
        } else if addr == OBP0 {
            self.obp0
        } else if addr == OBP1 {
            self.obp1
        } else if addr == WY {
            self.wy
        } else if addr == WX {
            self.wx
        } else if addr == INTERRUPT_FLAG {
            self.irq
        } else if addr == REG_VBK {
            self.vbk
        } else {
            0xFF
        }
    }

    /// A CPU write. LY is read-only, and of STAT only the interrupt enables
    /// can be written; addresses off this side of the bus are ignored.
    pub fn write(&mut self, addr: u16, value: u8)
        ensures
            final(self).vram0@ == if 0x8000 <= addr < 0xA000 && old(self).vbk & 1 != 1 {
                old(self).vram0@.update(addr - 0x8000, value)
            } else {
                old(self).vram0@
            },
            final(self).vram1@ == if 0x8000 <= addr < 0xA000 && old(self).vbk & 1 == 1 {
                old(self).vram1@.update(addr - 0x8000, value)
            } else {
                old(self).vram1@
            },
            final(self).oam@ == if 0xFE00 <= addr < 0xFEA0 {
                old(self).oam@.update(addr - 0xFE00, value)
            } else {
                old(self).oam@
            },
            final(self).oam_write_pending == (old(self).oam_write_pending || 0xFE00 <= addr
                < 0xFEA0),
            *final(self) == (Mmio {
                vram0: final(self).vram0,
                vram1: final(self).vram1,
                oam: final(self).oam,
                oam_write_pending: final(self).oam_write_pending,
                lcdc: if addr == LCD_CONTROL { value } else { old(self).lcdc },
                stat: if addr == LCD_STATUS {
                    stat_written(old(self).stat, value)
                } else {
                    old(self).stat
                },
                scy: if addr == SCY { value } else { old(self).scy },
                scx: if addr == SCX { value } else { old(self).scx },
                lyc: if addr == LYC { value } else { old(self).lyc },
                bgp: if addr == BGP { value } else { old(self).bgp },
                obp0: if addr == OBP0 { value } else { old(self).obp0 },
                obp1: if addr == OBP1 { value } else { old(self).obp1 },
                wy: if addr == WY { value } else { old(self).wy },
                wx: if addr == WX { value } else { old(self).wx },
                irq: if addr == INTERRUPT_FLAG { value } else { old(self).irq },
                vbk: if addr == REG_VBK { value & 1 } else { old(self).vbk },
                ..*old(self)
            }),
    {
        if 0x8000 <= addr && addr < 0xA000 {
            if self.vbk & 1 == 1 {
                self.vram1[(addr - 0x8000) as usize] = value;
            } else {
                self.vram0[(addr - 0x8000) as usize] = value;
            }
        } else if 0xFE00 <= addr && addr < 0xFEA0 {
            self.oam[(addr - 0xFE00) as usize] = value;
            self.oam_write_pending = true;
        } else if addr == LCD_CONTROL {
            self.lcdc = value;
        } else if addr == LCD_STATUS {
            self.stat = (self.stat & 0x87) | (value & 0x78);
        } else if addr == SCY {
            self.scy = value;
        } else if addr == SCX {
            self.scx = value;
        } else if addr == LYC {
            self.lyc = value;
        } else if addr == BGP {
            self.bgp = value;
        } else if addr == OBP0 {
            self.obp0 = value;
        } else if addr == OBP1 {
            self.obp1 = value;
        } else if addr == WY {
            self.wy = value;
        } else if addr == WX {
            self.wx = value;
        } else if addr == INTERRUPT_FLAG {
            self.irq = value;
        } else if addr == REG_VBK {
            self.vbk = value & 1;
        }
    }

    /// The byte at `addr` of a video memory bank, whatever bank the CPU has
    /// selected. Addresses wrap at the size of a bank.
    #[verifier::allow_in_spec]
    pub fn read_vram_bank(&self, bank: u8, addr: u16) -> u8
        returns
            (if bank == 1 {
                self.vram1[addr as int % 8192]
            } else {
                self.vram0[addr as int % 8192]
            }),
    {
        if bank == 1 {
            self.vram1[addr as usize % 8192]
        } else {
            self.vram0[addr as usize % 8192]
        }
    }

    /// An OAM byte as the scan sees it, DMA or not.
    #[verifier::allow_in_spec]
    pub fn ppu_read_oam_live(&self, addr: u16) -> u8
        requires
            0xFE00 <= addr < 0xFEA0,
        returns
            self.oam[addr - 0xFE00],
    {
        self.oam[(addr - 0xFE00) as usize]
    }

    /// Y and X of the forty objects.
    pub fn peek_oam_pos(&self) -> (r: [u8; 80])
        ensures
            r@ == oam_positions(self.oam@),
    {
        let mut pos: [u8; 80] = [0; 80];
        let mut i: usize = 0;
        while i < 40
            invariant
                i <= 40,
                forall|k: int| 0 <= k < 2 * i ==> pos@[k] == self.oam@[(k / 2) * 4 + k % 2],
            decreases 40 - i,
        {
            pos[2 * i] = self.oam[4 * i];
            pos[2 * i + 1] = self.oam[4 * i + 1];
            i += 1;
        }
        assert(pos@ =~= oam_positions(self.oam@));
        pos
    }

    /// Takes the note that OAM was written.
    pub fn take_oam_write_pending(&mut self) -> (r: bool)
        ensures
            r == old(self).oam_write_pending,
            *final(self) == (Mmio { oam_write_pending: false, ..*old(self) }),
    {
        let r = self.oam_write_pending;
        self.oam_write_pending = false;
        r
    }

    /// Whether anything can have changed what the OAM scan sees.
    #[verifier::allow_in_spec]
    pub fn oam_snoop_event_possible(&self) -> bool
        returns
            self.oam_dma_window || self.oam_write_pending,
    {
        self.oam_dma_window || self.oam_write_pending
    }

    /// A DMA is writing and the scan does not merge with it.
    #[verifier::allow_in_spec]
    pub fn oam_dma_hides_oam(&self) -> bool
        returns
            self.oam_dma_window && !self.mgb_frozen_merge,
    {
        self.oam_dma_window && !self.mgb_frozen_merge
    }

    pub fn write_ly_from_ppu(&mut self, value: u8)
        ensures
            *final(self) == (Mmio { ly: value, ..*old(self) }),
    {
        self.ly = value;
    }

    pub fn write_lcd_status_from_ppu(&mut self, value: u8)
        ensures
            *final(self) == (Mmio { stat: value, ..*old(self) }),
    {
        self.stat = value;
    }

    pub fn request_interrupt(&mut self, flag: InterruptFlag)
        ensures
            *final(self) == (Mmio { irq: old(self).irq | flag.mask(), ..*old(self) }),
    {
        self.irq = self.irq | flag.mask();
    }

    /// The two bytes of a background colour.
    #[verifier::allow_in_spec]
    pub fn read_bg_palette_data(&self, palette: u8, color: u8) -> (u8, u8)
        returns
            (
                self.bg_palette[(palette % 8) * 8 + (color % 4) * 2],
                self.bg_palette[(palette % 8) * 8 + (color % 4) * 2 + 1],
            ),
    {
        let i: usize = (palette % 8) as usize * 8 + (color % 4) as usize * 2;
        (self.bg_palette[i], self.bg_palette[i + 1])
    }

    /// The two bytes of an object colour.
    #[verifier::allow_in_spec]
    pub fn read_obj_palette_data(&self, palette: u8, color: u8) -> (u8, u8)
        returns
            (
                self.obj_palette[(palette % 8) * 8 + (color % 4) * 2],
                self.obj_palette[(palette % 8) * 8 + (color % 4) * 2 + 1],
            ),
    {
        let i: usize = (palette % 8) as usize * 8 + (color % 4) as usize * 2;
        (self.obj_palette[i], self.obj_palette[i + 1])
    }
}

} // verus!
