//! Registers and memory as the CPU finds them.

use vstd::prelude::*;

use crate::mmio::{oam_positions, stat_written, Mmio};
use crate::regs::LCDCFlags;

verus! {

/// Every register lies at its own address.
pub proof fn law_registers_lie_at_their_addresses(m: Mmio)
    ensures
        m.spec_read(0xFF40) == m.lcdc,
        m.spec_read(0xFF41) == m.stat,
        m.spec_read(0xFF42) == m.scy,
        m.spec_read(0xFF43) == m.scx,
        m.spec_read(0xFF44) == m.ly,
        m.spec_read(0xFF45) == m.lyc,
        m.spec_read(0xFF47) == m.bgp,
        m.spec_read(0xFF48) == m.obp0,
        m.spec_read(0xFF49) == m.obp1,
        m.spec_read(0xFF4A) == m.wy,
        m.spec_read(0xFF4B) == m.wx,
        m.spec_read(0xFF0F) == m.irq,
{
    reveal(Mmio::spec_read);
}

/// Video memory lies from 0x8000 on, in the bank that VBK selects, and OAM from
/// 0xFE00 on, which reads as 0xFF while a DMA writes it.
pub proof fn law_memory_lies_at_its_addresses(m: Mmio, i: int, k: int)
    requires
        0 <= i < 0x2000,
        0 <= k < 0xA0,
    ensures
        m.vbk & 1 != 1 ==> m.spec_read((0x8000 + i) as u16) == m.vram0[i],
        m.vbk & 1 == 1 ==> m.spec_read((0x8000 + i) as u16) == m.vram1[i],
        m.spec_read((0xFE00 + k) as u16) == if m.oam_dma_window { 0xFF } else { m.oam[k] },
{
    reveal(Mmio::spec_read);
}

/// The scan's copy is made of the first two of each object's four bytes.
pub proof fn law_positions_are_the_first_two_bytes(oam: Seq<u8>, i: int)
    requires
        0 <= i < 40,
    ensures
        oam_positions(oam).len() == 80,
        oam_positions(oam)[2 * i] == oam[4 * i],
        oam_positions(oam)[2 * i + 1] == oam[4 * i + 1],
{
}

/// The bits of LCDC.
pub proof fn law_lcdc_bits(reg: u8)
    ensures
        crate::regs::lcdc_has(reg, LCDCFlags::DisplayEnable) == (reg & 0x80 != 0),
        crate::regs::lcdc_has(reg, LCDCFlags::WindowTileMapDisplaySelect) == (reg & 0x40 != 0),
        crate::regs::lcdc_has(reg, LCDCFlags::WindowDisplayEnable) == (reg & 0x20 != 0),
        crate::regs::lcdc_has(reg, LCDCFlags::BGWindowTileDataSelect) == (reg & 0x10 != 0),
        crate::regs::lcdc_has(reg, LCDCFlags::BGTileMapDisplaySelect) == (reg & 0x08 != 0),
        crate::regs::lcdc_has(reg, LCDCFlags::SpriteSize) == (reg & 0x04 != 0),
        crate::regs::lcdc_has(reg, LCDCFlags::SpriteDisplayEnable) == (reg & 0x02 != 0),
        crate::regs::lcdc_has(reg, LCDCFlags::BGDisplay) == (reg & 0x01 != 0),
{
}

/// A CPU write to STAT changes the four interrupt enables, bits 3 to 6; the mode,
/// the LYC flag and bit 7 stay.
pub proof fn law_stat_write_changes_the_enables(stat: u8, value: u8)
    ensures
        stat_written(stat, value) & 0x78 == value & 0x78,
        stat_written(stat, value) & 0x07 == stat & 0x07,
        stat_written(stat, value) & 0x80 == stat & 0x80,
{
    assert(((stat & 0x87) | (value & 0x78)) & 0x78 == value & 0x78 && ((stat & 0x87) | (value
        & 0x78)) & 0x07 == stat & 0x07 && ((stat & 0x87) | (value & 0x78)) & 0x80 == stat & 0x80)
        by (bit_vector);
}

} // verus!
