//! Mixing background and objects into pixels.

use vstd::prelude::*;

use crate::fetcher::row_bit;
use crate::history::{col_value, dot_value};
use crate::mmio::Mmio;
use crate::objects::{sprite_key, Sprite, SpriteFetchPhase, SpriteFetchRec};
use crate::regs::{LCDCFlags, CLOCK_LIMIT};
use crate::state::{Ppu, PpuView};

verus! {

/// Dots before the end of an object's fetch at which its two bytes are read.
pub const OBJ_READ_LOW_BACK: u128 = 3;
pub const OBJ_READ_HIGH_BACK: u128 = 1;
/// The same for a DMG cartridge on CGB hardware.
pub const OBJ_READ_LOW_BACK_CGB: u128 = 6;
pub const OBJ_READ_HIGH_BACK_CGB: u128 = 3;

/// The object column under screen column `screen_x`, if it lies in the object.
pub open spec fn relative_x(s: Sprite, screen_x: u8) -> int {
    screen_x - (s.x - 8)
}

pub open spec fn relative_y(s: Sprite, screen_y: u8) -> int {
    screen_y - (s.y - 16)
}

/// Combines two plane bits into a colour index.
pub open spec fn plane_pixel(low: u8, high: u8, col: int, x_flip: bool) -> u8 {
    (row_bit(high, col, x_flip) << 1) | row_bit(low, col, x_flip)
}

/// Address of the low byte of row `screen_y` of an object, with the object
/// taken as tall or not.
pub open spec fn sized_line_addr(s: Sprite, screen_y: u8, large: bool) -> u16 {
    let mask = if large { 15u8 } else { 7 };
    let row = screen_y.wrapping_sub(s.y) & mask;
    let row = if s.attributes.y_flip { row ^ mask } else { row };
    let tile = if large { s.tile_index & 0xFE } else { s.tile_index };
    (0x8000 + tile * 16 + row * 2) as u16
}

impl PpuView {
    /// Whether the background is on in column `sx`.
    pub open spec fn bgen_at(self, sx: u8) -> bool {
        col_value(self.hist.bgen, sx as u64, self.lcdc_has(LCDCFlags::BGDisplay))
    }

    /// Whether objects are on at dot `tick`.
    pub open spec fn objen_at_tick(self, tick: u128) -> bool {
        dot_value(self.hist.objen, tick, self.lcdc_has(LCDCFlags::SpriteDisplayEnable))
    }

    /// Whether objects are tall at dot `tick`.
    pub open spec fn objsize_large_at_tick(self, tick: u128) -> bool {
        dot_value(self.hist.objsize, tick, self.lcdc_has(LCDCFlags::SpriteSize))
    }

    pub open spec fn sprite_height(self) -> int {
        if self.lcdc_has(LCDCFlags::SpriteSize) { 16 } else { 8 }
    }

    /// The colour index at column `col`, row `row` of an object.
    pub open spec fn sprite_pixel(self, m: Mmio, s: Sprite, col: int, row: int) -> Option<u8> {
        let height = self.sprite_height();
        let actual = if s.attributes.y_flip { height - 1 - row } else { row };
        let tile = if height == 16 {
            if actual < 8 { s.tile_index & 0xFE } else { s.tile_index | 0x01 }
        } else {
            s.tile_index
        };
        let addr = 0x8000 + tile * 16 + (actual % 8) * 2;
        let bank = if s.attributes.raw & 0x08 != 0 { 1u8 } else { 0 };
        let low = if m.cgb_features {
            m.read_vram_bank(bank, addr as u16)
        } else {
            m.read(addr as u16)
        };
        let high = if m.cgb_features {
            m.read_vram_bank(bank, (addr + 1) as u16)
        } else {
            m.read((addr + 1) as u16)
        };
        if col >= 8 || row >= height {
            None
        } else {
            Some(plane_pixel(low, high, col, s.attributes.x_flip))
        }
    }

    /// The colour index with each plane read at the height in force at its
    /// read.
    pub open spec fn pixel_with_sizes(
        self,
        m: Mmio,
        s: Sprite,
        col: int,
        screen_y: u8,
        low_large: bool,
        high_large: bool,
    ) -> u8 {
        plane_pixel(
            m.read(sized_line_addr(s, screen_y, low_large)),
            m.read((sized_line_addr(s, screen_y, high_large) + 1) as u16),
            col,
            s.attributes.x_flip,
        )
    }

    /// The colour index of an object on a line on which the object height
    /// changes.
    pub open spec fn pixel_sized(
        self,
        m: Mmio,
        s: Sprite,
        rec: Option<SpriteFetchRec>,
        col: int,
        screen_y: u8,
    ) -> u8 {
        match rec {
            Some(rec) if rec.phase == SpriteFetchPhase::Fetched => {
                let end = rec.arm_tick + rec.penalty;
                let (low_back, high_back) = if self.is_cgb_compat_dmg(m) {
                    (OBJ_READ_LOW_BACK_CGB, OBJ_READ_HIGH_BACK_CGB)
                } else {
                    (OBJ_READ_LOW_BACK, OBJ_READ_HIGH_BACK)
                };
                let low_at = if end < low_back { 0u128 } else { (end - low_back) as u128 };
                let high_at = if end < high_back { 0u128 } else { (end - high_back) as u128 };
                self.pixel_with_sizes(
                    m,
                    s,
                    col,
                    screen_y,
                    self.objsize_large_at_tick(low_at),
                    self.objsize_large_at_tick(high_at),
                )
            },
            _ => {
                let large = self.lcdc_has(LCDCFlags::SpriteSize);
                self.pixel_with_sizes(m, s, col, screen_y, large, large)
            },
        }
    }

    /// Objects were switched on or off during the line.
    pub open spec fn objen_toggled(self) -> bool {
        self.hist.objen.len() > 1
    }

    /// Object `i` was fetched and is switched on now, on a line on which
    /// objects were switched. A fetched object lags a dot once it is fifteen
    /// dots old.
    pub open spec fn survives_toggle(self, i: int, stale_quirk: bool) -> bool {
        let rec = self.line.rec(i);
        let aborted = rec matches Some(r) && r.phase == SpriteFetchPhase::Aborted;
        let stale = stale_quirk && (rec matches Some(r) && r.phase == SpriteFetchPhase::Fetched
            && self.ticks >= r.arm_tick + 15);
        !aborted && self.objen_at_tick((self.ticks + if stale { 1int } else { 0 }) as u128)
    }

    /// The visible colour index that object `i` puts on the pixel: not
    /// transparent, and not behind the background.
    pub open spec fn winning_pixel(
        self,
        m: Mmio,
        i: int,
        sx: u8,
        sy: u8,
        bg_idx: u8,
        stale_quirk: bool,
    ) -> Option<u8> {
        let s = self.line.sprites[i];
        let rx = relative_x(s, sx);
        let ry = relative_y(s, sy);
        let sized = self.hist.objsize.len() > 1;
        let in_y = 0 <= ry < if sized { 16 } else { self.sprite_height() };
        let px = if sized {
            Some(self.pixel_sized(m, s, self.line.rec(i), rx, sy))
        } else {
            self.sprite_pixel(m, s, rx, ry)
        };
        if (self.objen_toggled() && !self.survives_toggle(i, stale_quirk)) || !(0 <= rx < 8)
            || !in_y {
            None
        } else {
            match px {
                Some(p) if p != 0 && (!s.attributes.priority || bg_idx == 0) => Some(p),
                _ => None,
            }
        }
    }

    /// The first object from `i` on that wins the pixel, and its colour index.
    pub open spec fn first_winner_from(
        self,
        m: Mmio,
        i: int,
        sx: u8,
        sy: u8,
        bg_idx: u8,
        stale_quirk: bool,
    ) -> Option<(Sprite, u8)>
        decreases self.line.sprites.len() - i,
    {
        if i < 0 || i >= self.line.sprites.len() {
            None
        } else {
            match self.winning_pixel(m, i, sx, sy, bg_idx, stale_quirk) {
                Some(p) => Some((self.line.sprites[i], p)),
                None => self.first_winner_from(m, i + 1, sx, sy, bg_idx, stale_quirk),
            }
        }
    }

    pub open spec fn first_winning_sprite_pixel(
        self,
        m: Mmio,
        sx: u8,
        sy: u8,
        bg_idx: u8,
        stale_quirk: bool,
    ) -> Option<(Sprite, u8)> {
        if !self.objen_toggled() && !self.lcdc_has(LCDCFlags::SpriteDisplayEnable) {
            None
        } else {
            self.first_winner_from(m, 0, sx, sy, bg_idx, stale_quirk)
        }
    }

    /// The shade of a DMG pixel.
    pub open spec fn mix_mono(self, m: Mmio, bg_idx: u8, sx: u8, sy: u8, bg_on: bool) -> u8 {
        let idx = if bg_on { bg_idx } else { 0 };
        match self.first_winning_sprite_pixel(m, sx, sy, idx, true) {
            None => self.palette_color(m, idx, sx),
            Some((s, p)) => if m.is_cgb() {
                self.sprite_palette_color(p, s.attributes.palette, sx)
            } else {
                self.dmg_sprite_palette_shade(p, s.attributes.palette, self.ticks)
            },
        }
    }

    /// The colour of a pixel of a DMG cartridge on CGB hardware.
    pub open spec fn mix_compat(self, m: Mmio, bg_idx: u8, sx: u8, sy: u8, bg_on: bool) -> (
        u8,
        u8,
        u8,
    ) {
        let idx = if bg_on { bg_idx } else { 0 };
        let quirk = !m.is_cgb() || m.cgb_features;
        match self.first_winning_sprite_pixel(m, sx, sy, idx, quirk) {
            None => self.compat_bg_color(m, idx),
            Some((s, p)) => self.cgb_color(
                m,
                m.read_obj_palette_data(
                    if s.attributes.palette { 1 } else { 0 },
                    self.dmg_sprite_palette_shade(p, s.attributes.palette, self.ticks),
                ),
            ),
        }
    }

    /// The colour index that object `i` has on the pixel, where it has one.
    pub open spec fn visible_pixel(self, m: Mmio, i: int, sx: u8, sy: u8) -> Option<u8> {
        let s = self.line.sprites[i];
        let rx = relative_x(s, sx);
        let ry = relative_y(s, sy);
        if 0 <= rx < 8 && 0 <= ry < self.sprite_height() {
            match self.sprite_pixel(m, s, rx, ry) {
                Some(p) if p != 0 => Some(p),
                _ => None,
            }
        } else {
            None
        }
    }

    /// The foremost of the first `n` objects that are visible on the pixel.
    pub open spec fn foremost(self, m: Mmio, n: int, sx: u8, sy: u8) -> Option<int>
        decreases n,
    {
        if n <= 0 {
            None
        } else {
            let prev = self.foremost(m, n - 1, sx, sy);
            let s = self.line.sprites[n - 1];
            let ahead = match prev {
                None => true,
                Some(k) => sprite_key(m.cgb_features, s) < sprite_key(
                    m.cgb_features,
                    self.line.sprites[k],
                ),
            };
            if self.visible_pixel(m, n - 1, sx, sy) is Some && ahead {
                Some(n - 1)
            } else {
                prev
            }
        }
    }

    pub open spec fn sprite_rgb(self, m: Mmio, i: int, sx: u8, sy: u8) -> (u8, u8, u8) {
        let s = self.line.sprites[i];
        let palette = if m.cgb_features {
            s.attributes.raw & 0x07
        } else if s.attributes.palette {
            1
        } else {
            0
        };
        self.cgb_obj_color(m, palette, self.visible_pixel(m, i, sx, sy)->0, sx)
    }

    /// Whether an object covers the background. In CGB mode the background
    /// needs its master priority and one of the two priority bits.
    pub open spec fn sprite_covers(
        self,
        m: Mmio,
        s: Sprite,
        bg_idx: u8,
        bg_attrs: u8,
        bg_master: bool,
    ) -> bool {
        if m.cgb_features {
            bg_idx == 0 || !bg_master || (bg_attrs & 0x80 == 0 && !s.attributes.priority)
        } else {
            !s.attributes.priority || bg_idx == 0
        }
    }

    /// The colour of a CGB pixel.
    pub open spec fn mix_color(
        self,
        m: Mmio,
        bg_idx: u8,
        bg_attrs: u8,
        sx: u8,
        sy: u8,
        bg_master: bool,
    ) -> (u8, u8, u8) {
        let bg = self.cgb_bg_color(m, bg_attrs & 0x07, bg_idx, sx);
        if !self.lcdc_has(LCDCFlags::SpriteDisplayEnable) {
            bg
        } else {
            match self.foremost(m, self.line.sprites.len() as int, sx, sy) {
                Some(i) if self.sprite_covers(
                    m,
                    self.line.sprites[i],
                    bg_idx,
                    bg_attrs,
                    bg_master,
                ) => self.sprite_rgb(m, i, sx, sy),
                _ => bg,
            }
        }
    }
}

fn plane_pixel_exec(low: u8, high: u8, col: u8, x_flip: bool) -> (r: u8)
    requires
        col < 8,
    ensures
        r == plane_pixel(low, high, col as int, x_flip),
{
    let bit: u8 = if x_flip { col } else { 7 - col };
    (((high >> bit) & 1) << 1) | ((low >> bit) & 1)
}

fn sized_line_addr_exec(s: &Sprite, screen_y: u8, large: bool) -> (r: u16)
    ensures
        r == sized_line_addr(*s, screen_y, large),
        r <= 0xA000,
{
    let mask: u8 = if large { 15 } else { 7 };
    let mut tile_y: u8 = screen_y.wrapping_sub(s.y) & mask;
    if s.attributes.y_flip {
        tile_y = tile_y ^ mask;
    }
    let tile: u8 = if large { s.tile_index & 0xFE } else { s.tile_index };
    0x8000 + tile as u16 * 16 + tile_y as u16 * 2
}

impl Ppu {
    pub fn bgen_at(&self, sx: u8) -> (r: bool)
        ensures
            r == self@.bgen_at(sx),
    {
        self.hist.bgen_at(sx, self.lcdc_has(LCDCFlags::BGDisplay))
    }

    pub fn objen_at_tick(&self, tick: u128) -> (r: bool)
        ensures
            r == self@.objen_at_tick(tick),
    {
        self.hist.objen_at(tick, self.lcdc_has(LCDCFlags::SpriteDisplayEnable))
    }

    pub fn objsize_large_at_tick(&self, tick: u128) -> (r: bool)
        ensures
            r == self@.objsize_large_at_tick(tick),
    {
        self.hist.objsize_at(tick, self.lcdc_has(LCDCFlags::SpriteSize))
    }

    pub fn get_sprite_pixel(&self, mmio: &Mmio, sprite: &Sprite, sprite_x: u8, sprite_y: u8) -> (r:
        Option<u8>)
        ensures
            r == self@.sprite_pixel(*mmio, *sprite, sprite_x as int, sprite_y as int),
    {
        let sprite_height: u8 = if self.lcdc_has(LCDCFlags::SpriteSize) { 16 } else { 8 };
        if sprite_x >= 8 || sprite_y >= sprite_height {
            return None;
        }
        let actual_y: u8 = if sprite.attributes.y_flip {
            sprite_height - 1 - sprite_y
        } else {
            sprite_y
        };
        let tile_index: u8 = if sprite_height == 16 {
            if actual_y < 8 { sprite.tile_index & 0xFE } else { sprite.tile_index | 0x01 }
        } else {
            sprite.tile_index
        };
        let tile_line: u8 = actual_y % 8;
        let tile_addr: u16 = 0x8000 + tile_index as u16 * 16 + tile_line as u16 * 2;
        let (low_byte, high_byte): (u8, u8) = if mmio.is_cgb_features_enabled() {
            let bank: u8 = if (sprite.attributes.raw & 0x08) != 0 { 1 } else { 0 };
            (mmio.read_vram_bank(bank, tile_addr), mmio.read_vram_bank(bank, tile_addr + 1))
        } else {
            (mmio.read(tile_addr), mmio.read(tile_addr + 1))
        };
        Some(plane_pixel_exec(low_byte, high_byte, sprite_x, sprite.attributes.x_flip))
    }

    fn obj_pixel_with_sizes(
        &self,
        mmio: &Mmio,
        sprite: &Sprite,
        rel_x: u8,
        screen_y: u8,
        low_large: bool,
        high_large: bool,
    ) -> (r: u8)
        requires
            rel_x < 8,
        ensures
            r == self@.pixel_with_sizes(
                *mmio,
                *sprite,
                rel_x as int,
                screen_y,
                low_large,
                high_large,
            ),
    {
        let low_byte: u8 = mmio.read(sized_line_addr_exec(sprite, screen_y, low_large));
        let high_byte: u8 = mmio.read(sized_line_addr_exec(sprite, screen_y, high_large) + 1);
        plane_pixel_exec(low_byte, high_byte, rel_x, sprite.attributes.x_flip)
    }

    fn obj_pixel_sized(
        &self,
        mmio: &Mmio,
        sprite: &Sprite,
        rec: Option<SpriteFetchRec>,
        rel_x: u8,
        screen_y: u8,
    ) -> (r: u8)
        requires
            rel_x < 8,
            rec matches Some(v) ==> v.arm_tick < CLOCK_LIMIT,
        ensures
            r == self@.pixel_sized(*mmio, *sprite, rec, rel_x as int, screen_y),
    {
        match rec {
            Some(rec) if rec.phase == SpriteFetchPhase::Fetched => {
                let fetch_end: u128 = rec.arm_tick + rec.penalty as u128;
                let (low_back, high_back): (u128, u128) = if self.is_cgb_compat_dmg(mmio) {
                    (OBJ_READ_LOW_BACK_CGB, OBJ_READ_HIGH_BACK_CGB)
                } else {
                    (OBJ_READ_LOW_BACK, OBJ_READ_HIGH_BACK)
                };
                let low_at: u128 = if fetch_end < low_back { 0 } else { fetch_end - low_back };
                let high_at: u128 = if fetch_end < high_back { 0 } else { fetch_end - high_back };
                let low_large = self.objsize_large_at_tick(low_at);
                let high_large = self.objsize_large_at_tick(high_at);
                self.obj_pixel_with_sizes(mmio, sprite, rel_x, screen_y, low_large, high_large)
            },
            _ => {
                let large = self.lcdc_has(LCDCFlags::SpriteSize);
                self.obj_pixel_with_sizes(mmio, sprite, rel_x, screen_y, large, large)
            },
        }
    }

    fn survives_toggle(&self, i: usize, stale_pop_quirk: bool) -> (r: bool)
        requires
            self@.wf(),
            self@.in_range(),
        ensures
            r == self@.survives_toggle(i as int, stale_pop_quirk),
    {
        let mut stale = false;
        if let Some(rec) = self.line.rec(i) {
            if rec.phase == SpriteFetchPhase::Aborted {
                return false;
            }
            stale = stale_pop_quirk && rec.phase == SpriteFetchPhase::Fetched && self.ticks
                >= rec.arm_tick + 15;
        }
        self.objen_at_tick(self.ticks + (if stale { 1 } else { 0 }))
    }

    fn winning_pixel(
        &self,
        mmio: &Mmio,
        i: usize,
        screen_x: u8,
        screen_y: u8,
        bg_idx: u8,
        stale_pop_quirk: bool,
    ) -> (r: Option<u8>)
        requires
            self@.wf(),
            self@.in_range(),
            i < self@.line.sprites.len(),
        ensures
            r == self@.winning_pixel(
                *mmio,
                i as int,
                screen_x,
                screen_y,
                bg_idx,
                stale_pop_quirk,
            ),
    {
        if self.hist.objen_toggled() && !self.survives_toggle(i, stale_pop_quirk) {
            return None;
        }
        let sprite: Sprite = self.line.sprite(i);
        let relative_x: i16 = screen_x as i16 - (sprite.x as i16 - 8);
        let relative_y: i16 = screen_y as i16 - (sprite.y as i16 - 16);
        if relative_x < 0 || relative_x >= 8 {
            return None;
        }
        let objsize_toggled = self.hist.objsize_toggled();
        let height: i16 = if objsize_toggled || self.lcdc_has(LCDCFlags::SpriteSize) {
            16
        } else {
            8
        };
        if relative_y < 0 || relative_y >= height {
            return None;
        }
        let px: Option<u8> = if objsize_toggled {
            Some(
                self.obj_pixel_sized(
                    mmio,
                    &sprite,
                    self.line.rec(i),
                    relative_x as u8,
                    screen_y,
                ),
            )
        } else {
            self.get_sprite_pixel(mmio, &sprite, relative_x as u8, relative_y as u8)
        };
        match px {
            Some(p) if p != 0 && (!sprite.attributes.priority || bg_idx == 0) => Some(p),
            _ => None,
        }
    }

    pub fn first_winning_sprite_pixel(
        &self,
        mmio: &Mmio,
        screen_x: u8,
        screen_y: u8,
        effective_bg_pixel_idx: u8,
        stale_pop_quirk: bool,
    ) -> (r: Option<(Sprite, u8)>)
        requires
            self@.wf(),
            self@.in_range(),
        ensures
            r == self@.first_winning_sprite_pixel(
                *mmio,
                screen_x,
                screen_y,
                effective_bg_pixel_idx,
                stale_pop_quirk,
            ),
    {
        let objen_toggled = self.hist.objen_toggled();
        if !objen_toggled && !self.lcdc_has(LCDCFlags::SpriteDisplayEnable) {
            return None;
        }
        let mut i: usize = 0;
        while i < self.line.count()
            invariant
                self@.wf(),
                self@.in_range(),
                i <= self@.line.sprites.len(),
                self@.first_winner_from(
                    *mmio,
                    0,
                    screen_x,
                    screen_y,
                    effective_bg_pixel_idx,
                    stale_pop_quirk,
                ) == self@.first_winner_from(
                    *mmio,
                    i as int,
                    screen_x,
                    screen_y,
                    effective_bg_pixel_idx,
                    stale_pop_quirk,
                ),
                !(!self@.objen_toggled() && !self@.lcdc_has(LCDCFlags::SpriteDisplayEnable)),
            decreases self@.line.sprites.len() - i,
        {
            let win: Option<u8> = self.winning_pixel(
                mmio,
                i,
                screen_x,
                screen_y,
                effective_bg_pixel_idx,
                stale_pop_quirk,
            );
            if let Some(p) = win {
                return Some((self.line.sprite(i), p));
            }
            i += 1;
        }
        None
    }

    pub fn mix_background_and_sprites(
        &self,
        mmio: &Mmio,
        bg_pixel_idx: u8,
        screen_x: u8,
        screen_y: u8,
        bg_enabled_col: bool,
    ) -> (r: u8)
        requires
            self@.wf(),
            self@.in_range(),
        ensures
            r == self@.mix_mono(*mmio, bg_pixel_idx, screen_x, screen_y, bg_enabled_col),
    {
        let idx: u8 = if bg_enabled_col { bg_pixel_idx } else { 0 };
        match self.first_winning_sprite_pixel(mmio, screen_x, screen_y, idx, true) {
            None => self.get_palette_color(mmio, idx, screen_x),
            Some((sprite, p)) => if mmio.is_cgb() {
                self.get_sprite_palette_color(p, sprite.attributes.palette, screen_x)
            } else {
                self.dmg_sprite_palette_shade(p, sprite.attributes.palette, self.ticks)
            },
        }
    }

    pub fn mix_background_and_sprites_compat(
        &self,
        mmio: &Mmio,
        bg_pixel_idx: u8,
        screen_x: u8,
        screen_y: u8,
        bg_enabled_col: bool,
    ) -> (r: (u8, u8, u8))
        requires
            self@.wf(),
            self@.in_range(),
            mmio.wf(),
        ensures
            r == self@.mix_compat(*mmio, bg_pixel_idx, screen_x, screen_y, bg_enabled_col),
    {
        let idx: u8 = if bg_enabled_col { bg_pixel_idx } else { 0 };
        let stale_pop_quirk = !mmio.is_cgb() || mmio.is_cgb_features_enabled();
        match self.first_winning_sprite_pixel(mmio, screen_x, screen_y, idx, stale_pop_quirk) {
            None => self.compat_bg_color(mmio, idx),
            Some((sprite, p)) => {
                let use_obp1 = sprite.attributes.palette;
                let obj_shade: u8 = self.dmg_sprite_palette_shade(p, use_obp1, self.ticks);
                let pal: u8 = if use_obp1 { 1 } else { 0 };
                let (slo, shi): (u8, u8) = mmio.read_obj_palette_data(pal, obj_shade);
                self.cgb_color_to_rgb(slo, shi, &mmio.agb_curve)
            },
        }
    }

    fn visible_pixel(&self, mmio: &Mmio, i: usize, screen_x: u8, screen_y: u8) -> (r: Option<u8>)
        requires
            i < self@.line.sprites.len(),
        ensures
            r == self@.visible_pixel(*mmio, i as int, screen_x, screen_y),
    {
        let sprite: Sprite = self.line.sprite(i);
        let relative_x: i16 = screen_x as i16 - (sprite.x as i16 - 8);
        let relative_y: i16 = screen_y as i16 - (sprite.y as i16 - 16);
        if relative_x < 0 || relative_x >= 8 {
            return None;
        }
        let sprite_height: i16 = if self.lcdc_has(LCDCFlags::SpriteSize) { 16 } else { 8 };
        if relative_y < 0 || relative_y >= sprite_height {
            return None;
        }
        match self.get_sprite_pixel(mmio, &sprite, relative_x as u8, relative_y as u8) {
            Some(p) if p != 0 => Some(p),
            _ => None,
        }
    }

    fn ahead_of(&self, mmio: &Mmio, a: &Sprite, b: &Sprite) -> (r: bool)
        ensures
            r == (sprite_key(mmio.cgb_features, *a) < sprite_key(mmio.cgb_features, *b)),
    {
        if mmio.is_cgb_features_enabled() {
            a.oam_index < b.oam_index
        } else {
            a.x < b.x || (a.x == b.x && a.oam_index < b.oam_index)
        }
    }

    pub fn mix_background_and_sprites_color(
        &self,
        mmio: &Mmio,
        bg_pixel_idx: u8,
        bg_attrs: u8,
        screen_x: u8,
        screen_y: u8,
        bg_enabled_col: bool,
    ) -> (r: (u8, u8, u8))
        requires
            self@.wf(),
            mmio.wf(),
        ensures
            r == self@.mix_color(
                *mmio,
                bg_pixel_idx,
                bg_attrs,
                screen_x,
                screen_y,
                bg_enabled_col,
            ),
    {
        let palette_idx: u8 = bg_attrs & 0x07;
        let bg_color_rgb: (u8, u8, u8) = self.get_cgb_bg_color(
            mmio,
            palette_idx,
            bg_pixel_idx,
            screen_x,
        );
        if !self.lcdc_has(LCDCFlags::SpriteDisplayEnable) {
            return bg_color_rgb;
        }
        let mut selected: Option<(usize, u8)> = None;
        let mut i: usize = 0;
        while i < self.line.count()
            invariant
                i <= self@.line.sprites.len(),
                selected is None <==> self@.foremost(*mmio, i as int, screen_x, screen_y) is None,
                selected matches Some((k, p)) ==> k < i && self@.foremost(
                    *mmio,
                    i as int,
                    screen_x,
                    screen_y,
                ) == Some(k as int) && self@.visible_pixel(*mmio, k as int, screen_x, screen_y)
                    == Some(p),
            decreases self@.line.sprites.len() - i,
        {
            if let Some(p) = self.visible_pixel(mmio, i, screen_x, screen_y) {
                let ahead = match selected {
                    Some((k, _)) => self.ahead_of(
                        mmio,
                        &self.line.sprite(i),
                        &self.line.sprite(k),
                    ),
                    None => true,
                };
                if ahead {
                    selected = Some((i, p));
                }
            }
            i += 1;
        }
        if let Some((k, p)) = selected {
            let sprite: Sprite = self.line.sprite(k);
            let covers = if mmio.is_cgb_features_enabled() {
                bg_pixel_idx == 0 || !bg_enabled_col || ((bg_attrs & 0x80) == 0
                    && !sprite.attributes.priority)
            } else {
                !sprite.attributes.priority || bg_pixel_idx == 0
            };
            if covers {
                let sprite_palette_idx: u8 = if mmio.is_cgb_features_enabled() {
                    sprite.attributes.raw & 0x07
                } else if sprite.attributes.palette {
                    1
                } else {
                    0
                };
                return self.get_cgb_obj_color(mmio, sprite_palette_idx, p, screen_x);
            }
        }
        bg_color_rgb
    }
}

/// With objects off, and not switched on the line, pixels are background.
pub proof fn law_no_objects_shows_background(
    s: PpuView,
    m: Mmio,
    bg_idx: u8,
    attrs: u8,
    sx: u8,
    sy: u8,
    bg_on: bool,
)
    requires
        !s.lcdc_has(LCDCFlags::SpriteDisplayEnable),
        !s.objen_toggled(),
    ensures
        s.mix_color(m, bg_idx, attrs, sx, sy, bg_on) == s.cgb_bg_color(
            m,
            attrs & 0x07,
            bg_idx,
            sx,
        ),
        s.mix_mono(m, bg_idx, sx, sy, bg_on) == s.palette_color(
            m,
            if bg_on { bg_idx } else { 0 },
            sx,
        ),
{
}

/// The object shown in CGB mode is visible on the pixel, and no visible object
/// is ahead of it.
pub proof fn law_foremost_is_ahead(s: PpuView, m: Mmio, n: int, sx: u8, sy: u8, i: int)
    requires
        0 <= i < n <= s.line.sprites.len(),
        s.visible_pixel(m, i, sx, sy) is Some,
    ensures
        s.foremost(m, n, sx, sy) matches Some(k) && 0 <= k < n && s.visible_pixel(
            m,
            k,
            sx,
            sy,
        ) is Some && sprite_key(m.cgb_features, s.line.sprites[k]) <= sprite_key(
            m.cgb_features,
            s.line.sprites[i],
        ),
    decreases n,
{
    lemma_foremost_range(s, m, n - 1, sx, sy);
    if i < n - 1 {
        law_foremost_is_ahead(s, m, n - 1, sx, sy, i);
    }
}

proof fn lemma_foremost_range(s: PpuView, m: Mmio, n: int, sx: u8, sy: u8)
    requires
        0 <= n <= s.line.sprites.len(),
    ensures
        s.foremost(m, n, sx, sy) matches Some(k) ==> 0 <= k < n && s.visible_pixel(
            m,
            k,
            sx,
            sy,
        ) is Some,
    decreases n,
{
    if n > 0 {
        lemma_foremost_range(s, m, n - 1, sx, sy);
    }
}

} // verus!
