//! Finding the line's objects, and fetching them as drawing reaches them.

use vstd::prelude::*;

use crate::line_objs::LineObjsView;
use crate::ly_counter::LyCounter;
use crate::mmio::{oam_positions, Mmio};
use crate::oam_reader::{OamReader, OamReaderView, OAMDMA_CHANGE_CC_OFFSET};
use crate::objects::{Sprite, SpriteAttributes, SpriteFetchPhase, SpriteFetchRec};
use crate::regs::{dots_to_cycles, LCDCFlags, CLOCK_LIMIT};
use crate::state::{Objs, Ppu, PpuView};

verus! {

/// An object whose first row is 16 above `y` reaches line `ly`.
pub open spec fn on_line(y: u8, large: bool, ly: u8) -> bool {
    y - 16 <= ly < y - 16 + if large { 16int } else { 8 }
}

fn on_line_exec(y: u8, large: bool, ly: u8) -> (r: bool)
    ensures
        r == on_line(y, large, ly),
{
    let top: i32 = y as i32 - 16;
    let height: i32 = if large { 16 } else { 8 };
    ly as i32 >= top && (ly as i32) < top + height
}

/// Object `i` as the CPU's side of the bus has it.
#[verifier::opaque]
pub open spec fn oam_sprite(m: Mmio, i: int) -> Sprite {
    let at = 0xFE00 + i * 4;
    Sprite {
        y: m.read(at as u16),
        x: m.read((at + 1) as u16),
        tile_index: m.read((at + 2) as u16),
        attributes: SpriteAttributes::from_byte(m.read((at + 3) as u16)),
        oam_index: i as u8,
    }
}

fn read_oam_sprite(mmio: &Mmio, i: usize) -> (r: Sprite)
    requires
        i < 40,
    ensures
        r == oam_sprite(*mmio, i as int),
{
    reveal(oam_sprite);
    let at: u16 = 0xFE00 + i as u16 * 4;
    Sprite {
        y: mmio.read(at),
        x: mmio.read(at + 1),
        tile_index: mmio.read(at + 2),
        attributes: SpriteAttributes::from_byte(mmio.read(at + 3)),
        oam_index: i as u8,
    }
}

/// Tile number and attributes of object `i` as the fetch finds them.
pub open spec fn fetch_tile_attr(m: Mmio, reader: OamReaderView, i: int) -> (u8, u8) {
    let at = 0xFE00 + i * 4;
    match m.mgb_frozen_tile_attr[i] {
        Some(ta) => ta,
        None => if reader.ghost_slot[i] {
            (m.oam[i * 4 + 2], m.oam[i * 4 + 3])
        } else {
            (m.read((at + 2) as u16), m.read((at + 3) as u16))
        },
    }
}

/// Object `i` out of the scan's copy.
pub open spec fn snapshot_sprite(m: Mmio, reader: OamReaderView, i: int) -> Sprite {
    let ta = fetch_tile_attr(m, reader, i);
    Sprite {
        y: reader.buf[2 * i],
        x: reader.buf[2 * i + 1],
        tile_index: ta.0,
        attributes: SpriteAttributes::from_byte(ta.1),
        oam_index: i as u8,
    }
}

/// The line's objects among the first `n`: at most ten, the first in OAM.
pub open spec fn snapshot_sprites(
    m: Mmio,
    reader: OamReaderView,
    slot_large: Seq<bool>,
    n: int,
) -> Seq<Sprite>
    decreases n,
{
    if n <= 0 {
        Seq::empty()
    } else {
        let prev = snapshot_sprites(m, reader, slot_large, n - 1);
        if prev.len() < 10 && on_line(reader.buf[2 * (n - 1)], slot_large[n - 1], m.ly) {
            prev.push(snapshot_sprite(m, reader, n - 1))
        } else {
            prev
        }
    }
}

/// An OAM DMA starts or ends: the copy changes source.
pub open spec fn reader_dma_edge(
    r: OamReaderView,
    cc: u64,
    lc: LyCounter,
    oam: Seq<u8>,
    was_writing: bool,
    writing: bool,
    line_has_fetches: bool,
) -> OamReaderView {
    let back = dots_to_cycles(OAMDMA_CHANGE_CC_OFFSET as int, lc.ds);
    let edge_cc = (if cc < back { 0 } else { cc - back }) as u64;
    if writing == was_writing {
        r
    } else {
        let c = r.change(edge_cc, lc, oam);
        let g = if writing { c.capture_ghost(line_has_fetches) } else { c };
        OamReaderView { src_disabled: writing, ..g }
    }
}

/// The copy after the DMA edge and a CPU write.
#[verifier::opaque]
pub open spec fn reader_events(
    r: OamReaderView,
    cc: u64,
    lc: LyCounter,
    oam: Seq<u8>,
    was_writing: bool,
    writing: bool,
    line_has_fetches: bool,
    cpu_wrote: bool,
) -> OamReaderView {
    let e = reader_dma_edge(r, cc, lc, oam, was_writing, writing, line_has_fetches);
    if cpu_wrote { e.change(cc, lc, oam) } else { e }
}

fn apply_reader_events(
    reader: &mut OamReader,
    cc: u64,
    lc: &LyCounter,
    oam: &[u8; 80],
    was_writing: bool,
    writing: bool,
    line_has_fetches: bool,
    cpu_wrote: bool,
)
    requires
        old(reader)@.wf(),
        cc < 2 * CLOCK_LIMIT,
        lc.time < 2 * CLOCK_LIMIT,
    ensures
        final(reader)@.wf(),
        final(reader)@ == reader_events(
            old(reader)@,
            cc,
            *lc,
            oam@,
            was_writing,
            writing,
            line_has_fetches,
            cpu_wrote,
        ),
{
    reveal(reader_events);
    if writing != was_writing {
        let back: u64 = if lc.ds { 6 } else { 3 };
        let edge_cc: u64 = if cc < back { 0 } else { cc - back };
        reader.change(edge_cc, lc, oam);
        if writing {
            reader.capture_ghost(line_has_fetches);
        }
        reader.set_src_disabled(writing);
    }
    if cpu_wrote {
        reader.change(cc, lc, oam);
    }
}

/// A reader seeded from OAM at `cc`.
#[verifier::opaque]
pub open spec fn reader_seeded(
    r: OamReaderView,
    oam: Seq<u8>,
    cgb: bool,
    cc: u64,
    large: bool,
) -> OamReaderView {
    OamReaderView { lu: cc, large_src: large, ..r.reset(oam, cgb) }
}

fn seed_reader(reader: &mut OamReader, oam: &[u8; 80], cgb: bool, cc: u64, large: bool)
    requires
        cc < 2 * CLOCK_LIMIT,
    ensures
        final(reader)@.wf(),
        final(reader)@ == reader_seeded(old(reader)@, oam@, cgb, cc, large),
{
    reveal(reader_seeded);
    reader.reset(oam, cgb);
    reader.set_lu(cc);
    reader.set_large_src(large);
}

fn find_line_sprites(mmio: &Mmio, reader: &OamReader, slots: &crate::line_objs::LineObjs) -> (r:
    Vec<Sprite>)
    requires
        reader@.wf(),
        slots@.wf(),
    ensures
        r@ == snapshot_sprites(*mmio, reader@, slots@.slot_large, 40),
        r@.len() <= 10,
{
    let mut found: Vec<Sprite> = Vec::new();
    let mut i: usize = 0;
    while i < 40
        invariant
            reader@.wf(),
            slots@.wf(),
            i <= 40,
            found@ == snapshot_sprites(*mmio, reader@, slots@.slot_large, i as int),
            found@.len() <= 10,
        decreases 40 - i,
    {
        let (sprite_y, sprite_x): (u8, u8) = reader.position(i);
        if found.len() < 10 && on_line_exec(sprite_y, slots.slot_large(i), mmio.ly) {
            let at: u16 = 0xFE00 + i as u16 * 4;
            let (tile_index, attributes_byte): (u8, u8) = match mmio.mgb_frozen_tile_attr[i] {
                Some(ta) => ta,
                None => if reader.is_ghost(i) {
                    (mmio.ppu_read_oam_live(at + 2), mmio.ppu_read_oam_live(at + 3))
                } else {
                    (mmio.read(at + 2), mmio.read(at + 3))
                },
            };
            found.push(
                Sprite {
                    y: sprite_y,
                    x: sprite_x,
                    tile_index,
                    attributes: SpriteAttributes::from_byte(attributes_byte),
                    oam_index: i as u8,
                },
            );
        }
        i += 1;
    }
    found
}

/// The scan's copy and the objects found in it. A copy that was cut off and
/// has been used loses what was left on the bus.
#[verifier::opaque]
pub open spec fn scan_result(
    r: OamReaderView,
    m: Mmio,
    slot_large: Seq<bool>,
    cc: u64,
    lc: LyCounter,
    large: bool,
) -> (OamReaderView, Seq<Sprite>) {
    let u = (OamReaderView { large_src: large, ..r }).update(cc, lc, oam_positions(m.oam@));
    let found = snapshot_sprites(m, u, slot_large, 40);
    (
        if u.src_disabled && found.len() > 0 {
            OamReaderView { ghost_pos: (0xFF, 0xFF), ..u }
        } else {
            u
        },
        found,
    )
}

fn scan_snapshot(
    reader: &mut OamReader,
    mmio: &Mmio,
    slots: &crate::line_objs::LineObjs,
    cc: u64,
    lc: &LyCounter,
    large: bool,
) -> (r: Vec<Sprite>)
    requires
        old(reader)@.wf(),
        slots@.wf(),
        cc < 2 * CLOCK_LIMIT,
        lc.time < 2 * CLOCK_LIMIT,
    ensures
        final(reader)@.wf(),
        (final(reader)@, r@) == scan_result(
            old(reader)@,
            *mmio,
            slots@.slot_large,
            cc,
            *lc,
            large,
        ),
        r@.len() <= 10,
{
    reveal(scan_result);
    let pos: [u8; 80] = mmio.peek_oam_pos();
    reader.set_large_src(large);
    reader.update(cc, lc, &pos);
    let found: Vec<Sprite> = find_line_sprites(mmio, reader, slots);
    if reader.src_disabled() && found.len() > 0 {
        reader.clear_ghost();
    }
    found
}

/// Objects left of column `x` are given up, from index `idx` on.
pub open spec fn pass_left(line: LineObjsView, idx: int, x: u8) -> (LineObjsView, int)
    decreases line.sprites.len() - idx,
{
    if 0 <= idx < line.sprites.len() && line.trigger_x(idx) < x {
        pass_left(LineObjsView { recs: line.given_up(idx).recs, ..line }, idx + 1, x)
    } else {
        (line, idx)
    }
}

fn pass_left_exec(line: &mut crate::line_objs::LineObjs, idx: usize, x: u8) -> (r: usize)
    requires
        old(line)@.wf(),
        idx <= old(line)@.sprites.len(),
    ensures
        final(line)@.wf(),
        (final(line)@, r as int) == pass_left(old(line)@, idx as int, x),
        idx <= r <= final(line)@.sprites.len(),
        final(line)@.sprites == old(line)@.sprites,
        r < final(line)@.sprites.len() ==> final(line)@.trigger_x(r as int) >= x,
{
    let mut i: usize = idx;
    while i < line.count() && line.trigger_x(i) < x
        invariant
            line@.wf(),
            idx <= i <= line@.sprites.len(),
            line@.sprites == old(line)@.sprites,
            pass_left(line@, i as int, x) == pass_left(old(line)@, idx as int, x),
        decreases line@.sprites.len() - i,
    {
        line.give_up(i);
        i += 1;
    }
    i
}

impl PpuView {
    /// One slot of the mode-2 scan: an object on the line joins it while there
    /// are fewer than ten.
    pub open spec fn check_single_sprite(self, m: Mmio, i: int) -> PpuView {
        let s = oam_sprite(m, i);
        if self.line.sprites.len() < 10 && on_line(s.y, self.objs.scan_obj_size_large, m.ly) {
            PpuView {
                line: LineObjsView { sprites: self.line.sprites.push(s), ..self.line },
                ..self
            }
        } else {
            self
        }
    }

    /// Everything that happened to OAM since the last dot reaches the scan's
    /// copy.
    #[verifier::opaque]
    pub open spec fn oam_reader_events(self, m: Mmio) -> (PpuView, Mmio) {
        let oam = oam_positions(m.oam@);
        let large = self.lcdc_has(LCDCFlags::SpriteSize);
        let writing = m.oam_dma_hides_oam();
        if !self.objs.oam_reader_seeded {
            (
                PpuView {
                    oam_reader: reader_seeded(
                        self.oam_reader,
                        oam,
                        m.cgb_features,
                        self.clk.abs_cc,
                        large,
                    ),
                    objs: Objs {
                        prev_dma_writing: writing,
                        oam_reader_seeded: true,
                        ..self.objs
                    },
                    ..self
                },
                m,
            )
        } else if !self.objs.prev_dma_writing && !m.oam_snoop_event_possible() {
            (self, m)
        } else {
            (
                PpuView {
                    oam_reader: reader_events(
                        OamReaderView { large_src: large, ..self.oam_reader },
                        self.clk.abs_cc,
                        self.ly_counter(m),
                        oam,
                        self.objs.prev_dma_writing,
                        writing,
                        self.line.sprites.len() > 0,
                        m.oam_write_pending,
                    ),
                    objs: Objs { prev_dma_writing: writing, ..self.objs },
                    ..self
                },
                Mmio { oam_write_pending: false, ..m },
            )
        }
    }

    /// The line's objects out of the scan's copy.
    pub open spec fn build_sprites(self, m: Mmio) -> PpuView {
        let (reader, found) = scan_result(
            self.oam_reader,
            m,
            self.line.slot_large,
            self.clk.abs_cc,
            self.ly_counter(m),
            self.lcdc_has(LCDCFlags::SpriteSize),
        );
        PpuView {
            oam_reader: reader,
            line: LineObjsView { sprites: found, ..self.line },
            ..self
        }
    }

    /// An object that is still to be fetched starts in column `col`.
    pub open spec fn unfetched_sprite_at(self, col: int) -> bool {
        self.lcdc_has(LCDCFlags::SpriteDisplayEnable) && exists|i: int|
            self.objs.next_sprite_fetch_index <= i < self.line.sprites.len()
                && #[trigger] self.line.trigger_x(i) == col
    }

    /// The position that decides an object's tile column.
    pub open spec fn fetch_dist_x(self, m: Mmio, sprite_x: u8) -> int {
        if m.cgb_features { self.x as int } else { sprite_x as int }
    }

    /// Dots that fetching the object costs: eleven at the left edge, six behind
    /// another object of its tile column, otherwise six and the wait for the
    /// background fetch.
    pub open spec fn fetch_penalty(self, m: Mmio, sprite_x: u8) -> int {
        let at = self.fetch_dist_x(m, sprite_x) + m.scx;
        let wait = 5 - at % 8;
        if sprite_x == 0 {
            11
        } else if (at / 8) * 8 != self.objs.m3_sprite_prev_tile {
            6 + if wait < 0 { 0 } else { wait }
        } else {
            6
        }
    }

    /// The fetch record of an object at X `sx` that is fetched now. An object
    /// that hangs over the left edge counts from where its first column would
    /// be.
    pub open spec fn fetch_record(self, m: Mmio, sx: u8) -> SpriteFetchRec {
        let early = if sx < 8 { 8 - sx } else { 0 };
        SpriteFetchRec {
            phase: SpriteFetchPhase::Fetched,
            arm_tick: (if early < self.ticks { self.ticks - early } else { 0 }) as u128,
            penalty: self.fetch_penalty(m, sx) as u8,
        }
    }

    /// Objects that drawing has passed are given up; one that starts in the
    /// current column is fetched, and its cost returned.
    pub open spec fn sprite_fetch_step(self, m: Mmio) -> (PpuView, Option<u8>) {
        let (line, i) = pass_left(self.line, self.objs.next_sprite_fetch_index as int, self.x);
        if !self.lcdc_has(LCDCFlags::SpriteDisplayEnable) && !m.cgb_features {
            (self, None)
        } else if i < line.sprites.len() && line.trigger_x(i) == self.x {
            let sx = line.sprites[i].x;
            (
                PpuView {
                    line: line.with_rec(i, self.fetch_record(m, sx)),
                    objs: Objs {
                        next_sprite_fetch_index: (i + 1) as usize,
                        m3_last_sprite_commit_tick: self.ticks,
                        m3_sprite_prev_tile: ((self.fetch_dist_x(m, sx) + m.scx) / 8 * 8) as i32,
                        ..self.objs
                    },
                    ..self
                },
                Some(self.fetch_penalty(m, sx) as u8),
            )
        } else {
            (
                PpuView {
                    line,
                    objs: Objs { next_sprite_fetch_index: i as usize, ..self.objs },
                    ..self
                },
                None,
            )
        }
    }
}

impl Ppu {
    pub(crate) fn check_single_sprite_for_scanline(&mut self, mmio: &Mmio, sprite_index: usize)
        requires
            old(self).wf(),
            sprite_index < 40,
        ensures
            final(self).wf(),
            final(self)@ == old(self)@.check_single_sprite(*mmio, sprite_index as int),
    {
        if self.line.count() >= 10 {
            return;
        }
        let sprite: Sprite = read_oam_sprite(mmio, sprite_index);
        if on_line_exec(sprite.y, self.objs.scan_obj_size_large, mmio.ly) {
            self.line.push(sprite);
        }
    }

    /// Brings the scan's copy of OAM up to date, where anything can have
    /// happened to it.
    pub(crate) fn process_oam_reader_events(&mut self, mmio: &mut Mmio)
        requires
            old(self).wf(),
            old(self)@.in_range(),
        ensures
            final(self).wf(),
            (final(self)@, *final(mmio)) == old(self)@.oam_reader_events(*old(mmio)),
            final(self)@.in_range(),
            final(self)@.state == old(self)@.state,
            final(self)@.disabled == old(self)@.disabled,
            final(self)@.m0 == old(self)@.m0,
            *final(mmio) == (Mmio {
                oam_write_pending: final(mmio).oam_write_pending,
                ..*old(mmio)
            }),
    {
        reveal(PpuView::oam_reader_events);
        if self.objs.oam_reader_seeded && !self.objs.prev_dma_writing
            && !mmio.oam_snoop_event_possible() {
            return;
        }
        self.process_oam_reader_events_slow(mmio);
    }

    fn process_oam_reader_events_slow(&mut self, mmio: &mut Mmio)
        requires
            old(self).wf(),
            old(self)@.in_range(),
            !old(self)@.objs.oam_reader_seeded || old(self)@.objs.prev_dma_writing
                || old(mmio).oam_snoop_event_possible(),
        ensures
            final(self).wf(),
            (final(self)@, *final(mmio)) == old(self)@.oam_reader_events(*old(mmio)),
            final(self)@.in_range(),
    {
        reveal(PpuView::oam_reader_events);
        let cc: u64 = self.clk.abs_cc;
        let pos: [u8; 80] = mmio.peek_oam_pos();
        let large = self.lcdc_has(LCDCFlags::SpriteSize);
        let dma_writing = mmio.oam_dma_hides_oam();
        if !self.objs.oam_reader_seeded {
            seed_reader(
                &mut self.oam_reader,
                &pos,
                mmio.is_cgb_features_enabled(),
                cc,
                large,
            );
            self.objs = Objs {
                prev_dma_writing: dma_writing,
                oam_reader_seeded: true,
                ..self.objs
            };
            return;
        }
        let lc = self.ly_counter(mmio);
        let cpu_wrote = mmio.take_oam_write_pending();
        let line_has_fetches = self.line.count() > 0;
        self.oam_reader.set_large_src(large);
        apply_reader_events(
            &mut self.oam_reader,
            cc,
            &lc,
            &pos,
            self.objs.prev_dma_writing,
            dma_writing,
            line_has_fetches,
            cpu_wrote,
        );
        self.objs = Objs { prev_dma_writing: dma_writing, ..self.objs };
    }

    /// Takes the line's objects from the scan's copy. How far they have been
    /// fetched is left as it was, and may lie beyond them.
    pub(crate) fn build_sprites_from_snapshot(&mut self, mmio: &Mmio)
        requires
            old(self).wf(),
            old(self)@.in_range(),
        ensures
            final(self)@ == old(self)@.build_sprites(*mmio),
            final(self).fetcher.queue_ok(),
            (PpuView {
                objs: Objs { next_sprite_fetch_index: 0, ..final(self)@.objs },
                ..final(self)@
            }).wf(),
    {
        let lc = self.ly_counter(mmio);
        let large = self.lcdc_has(LCDCFlags::SpriteSize);
        let found: Vec<Sprite> = scan_snapshot(
            &mut self.oam_reader,
            mmio,
            &self.line,
            self.clk.abs_cc,
            &lc,
            large,
        );
        self.line.set_sprites(found);
    }

    pub fn dmg_unfetched_sprite_at(&self, col: u8) -> (r: bool)
        requires
            self@.wf(),
        ensures
            r == self@.unfetched_sprite_at(col as int),
    {
        if !self.lcdc_has(LCDCFlags::SpriteDisplayEnable) {
            return false;
        }
        let mut i: usize = self.objs.next_sprite_fetch_index;
        while i < self.line.count()
            invariant
                self.objs.next_sprite_fetch_index <= i <= self@.line.sprites.len(),
                self@.lcdc_has(LCDCFlags::SpriteDisplayEnable),
                forall|k: int|
                    self.objs.next_sprite_fetch_index <= k < i ==> #[trigger] self@.line.trigger_x(
                        k,
                    ) != col,
            decreases self@.line.sprites.len() - i,
        {
            if self.line.trigger_x(i) == col {
                return true;
            }
            i += 1;
        }
        false
    }

    fn fetch_penalty(&self, mmio: &Mmio, sprite_x: u8) -> (r: (u8, i32))
        ensures
            r.0 == self@.fetch_penalty(*mmio, sprite_x),
            r.1 == (self@.fetch_dist_x(*mmio, sprite_x) + mmio.scx) / 8 * 8,
            6 <= r.0 <= 11,
    {
        let dist_x: u8 = if mmio.is_cgb_features_enabled() { self.x } else { sprite_x };
        let at: u32 = dist_x as u32 + mmio.scx as u32;
        let pixel_in_tile: u8 = (at % 8) as u8;
        let tile_no: i32 = (at / 8 * 8) as i32;
        let penalty: u8 = if sprite_x == 0 {
            11
        } else if tile_no != self.objs.m3_sprite_prev_tile {
            let wait_for_bg_fetch: u8 = if pixel_in_tile > 5 { 0 } else { 5 - pixel_in_tile };
            wait_for_bg_fetch + 6
        } else {
            6
        };
        (penalty, tile_no)
    }

    pub(crate) fn sprite_fetch_penalty_for_current_x(&mut self, mmio: &Mmio) -> (r: Option<u8>)
        requires
            old(self).wf(),
            old(self)@.in_range(),
        ensures
            final(self).wf(),
            (final(self)@, r) == old(self)@.sprite_fetch_step(*mmio),
            r matches Some(p) ==> 6 <= p <= 11,
    {
        if !self.lcdc_has(LCDCFlags::SpriteDisplayEnable) && !mmio.is_cgb_features_enabled() {
            return None;
        }
        let i: usize = pass_left_exec(
            &mut self.line,
            self.objs.next_sprite_fetch_index,
            self.x,
        );
        if i < self.line.count() && self.line.trigger_x(i) == self.x {
            let sprite_x: u8 = self.line.sprite(i).x;
            let (penalty, tile_no): (u8, i32) = self.fetch_penalty(mmio, sprite_x);
            let early: u128 = if sprite_x < 8 { 8 - sprite_x as u128 } else { 0 };
            let arm_tick: u128 = if early < self.ticks { self.ticks - early } else { 0 };
            self.line.set_rec(
                i,
                SpriteFetchRec { phase: SpriteFetchPhase::Fetched, arm_tick, penalty },
            );
            self.objs = Objs {
                next_sprite_fetch_index: i + 1,
                m3_last_sprite_commit_tick: self.ticks,
                m3_sprite_prev_tile: tile_no,
                ..self.objs
            };
            return Some(penalty);
        }
        self.objs = Objs { next_sprite_fetch_index: i, ..self.objs };
        None
    }
}

/// No line ever holds more than ten objects, and they come in OAM order.
pub proof fn law_line_holds_ten_objects(
    m: Mmio,
    reader: OamReaderView,
    slots: Seq<bool>,
    n: int,
)
    requires
        0 <= n <= 40,
    ensures
        snapshot_sprites(m, reader, slots, n).len() <= 10,
        forall|i: int|
            0 <= i < snapshot_sprites(m, reader, slots, n).len() ==> (#[trigger] snapshot_sprites(
                m,
                reader,
                slots,
                n,
            )[i]).oam_index < n,
        forall|i: int, j: int|
            0 <= i < j < snapshot_sprites(m, reader, slots, n).len()
                ==> (#[trigger] snapshot_sprites(m, reader, slots, n)[i]).oam_index < (
            #[trigger] snapshot_sprites(m, reader, slots, n)[j]).oam_index,
    decreases n,
{
    if n > 0 {
        law_line_holds_ten_objects(m, reader, slots, n - 1);
    }
}

} // verus!
