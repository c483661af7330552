//! The queue, the write probe, objects, write histories and packed flags.

use rustyboi_ppu::history::{pal_at, pal_at_tick, value_at_col};
use rustyboi_ppu::ly_counter::{inc_ly, LyCounter};
use rustyboi_ppu::oam_reader::{pack_flags, unpack_flags};
use rustyboi_ppu::objects::{sort_line_sprites, sprite_tile_walk_cost, SpriteAttributes};
use rustyboi_ppu::{BgPixel, DirtyLineProbe, Fifo, Sprite, WatchedReg};

fn pixel(color: u8) -> BgPixel {
    BgPixel { color, attrs: 0x80 | color }
}

#[test]
fn fifo_hands_pixels_back_in_order() {
    let mut fifo = Fifo::new();
    assert_eq!(fifo.size(), 0);
    for c in 0..4 {
        fifo.push(pixel(c));
    }
    assert_eq!(fifo.size(), 4);
    for c in 0..4 {
        let p = fifo.pop().unwrap();
        assert_eq!((p.color, p.attrs), (c, 0x80 | c));
    }
    assert_eq!(fifo.size(), 0);
}

#[test]
fn fifo_goes_round_its_storage() {
    let mut fifo = Fifo::new();
    for c in 0..100u8 {
        fifo.push(pixel(c));
        fifo.push(pixel(c.wrapping_add(1)));
        assert_eq!(fifo.pop().unwrap().color, c);
        assert_eq!(fifo.pop().unwrap().color, c.wrapping_add(1));
    }
}

#[test]
fn an_empty_fifo_has_nothing_to_pop() {
    let mut fifo = Fifo::new();
    assert!(fifo.pop().is_err());
    fifo.push(pixel(1));
    fifo.reset();
    assert_eq!(fifo.size(), 0);
    assert!(fifo.pop().is_err());
}

#[test]
fn overwriting_replaces_one_end_of_the_fifo() {
    let row = [pixel(9); 8];
    let mut fifo = Fifo::new();
    for c in 0..10 {
        fifo.push(pixel(c));
    }
    fifo.overwrite_oldest(&row);
    let colors: Vec<u8> = (0..10).map(|_| fifo.pop().unwrap().color).collect();
    assert_eq!(colors, [9, 9, 9, 9, 9, 9, 9, 9, 8, 9]);
    for c in 0..10 {
        fifo.push(pixel(c));
    }
    fifo.overwrite_newest(&row);
    let colors: Vec<u8> = (0..10).map(|_| fifo.pop().unwrap().color).collect();
    assert_eq!(colors, [0, 1, 9, 9, 9, 9, 9, 9, 9, 9]);
}

#[test]
fn watched_registers_have_addresses_and_names() {
    let table = [
        (0xFF40, "LCDC"),
        (0xFF42, "SCY"),
        (0xFF43, "SCX"),
        (0xFF47, "BGP"),
        (0xFF48, "OBP0"),
        (0xFF49, "OBP1"),
        (0xFF4B, "WX"),
        (0xFF69, "BCPD"),
        (0xFF6B, "OCPD"),
    ];
    for (i, (addr, name)) in table.into_iter().enumerate() {
        let reg = WatchedReg::from_addr(addr).unwrap();
        assert_eq!(reg.name(), name);
        assert_eq!(WatchedReg::ALL[i], reg);
    }
    assert_eq!(WatchedReg::from_addr(0xFF41), None);
    assert_eq!(WatchedReg::from_addr(0xFF4A), None);
}

#[test]
fn the_probe_counts_each_line_once() {
    let mut probe = DirtyLineProbe::new();
    for ly in 0..144 {
        probe.mark_line_rendered(ly);
    }
    probe.record_write(WatchedReg::Scx, 10, true, false);
    probe.record_write(WatchedReg::Scx, 10, true, false);
    probe.record_write(WatchedReg::Bgp, 10, true, false);
    probe.record_write(WatchedReg::Bgp, 11, false, false);
    probe.record_write(WatchedReg::Bcpd, 12, true, true);
    probe.record_write(WatchedReg::Bgp, 150, true, false);
    assert!(!probe.ever_dirty());
    probe.end_frame();
    assert!(probe.ever_dirty());
    assert_eq!(probe.total_visible_lines, 144);
    assert_eq!(probe.total_dirty_lines, 1);
    assert_eq!(probe.frames, 1);
    assert_eq!(probe.palette_blocked_events, 1);
    assert_eq!(probe.per_reg_dirty_lines, [0, 0, 1, 1, 0, 0, 0, 0, 0]);
    assert_eq!(probe.per_reg_events, [0, 0, 2, 1, 0, 0, 0, 0, 0]);
    // A frame in which nothing was drawn is a frame too.
    probe.end_frame();
    assert_eq!(probe.frames, 2);
    assert_eq!(probe.total_visible_lines, 144);
}

#[test]
fn a_probe_that_saw_no_write_is_clean() {
    let mut probe = DirtyLineProbe::new();
    probe.mark_line_rendered(3);
    assert!(!probe.ever_dirty());
    probe.end_frame();
    assert!(!probe.ever_dirty());
    assert_eq!((probe.total_visible_lines, probe.total_dirty_lines), (1, 0));
}

#[test]
fn every_end_of_frame_counts_as_a_frame() {
    let mut probe = DirtyLineProbe::new();
    assert_eq!(probe.frames, 0);
    probe.end_frame();
    assert_eq!(probe.frames, 1);
    assert_eq!((probe.total_visible_lines, probe.total_dirty_lines), (0, 0));
}

#[test]
fn packed_flags_come_back() {
    let mut flags = [false; 40];
    assert_eq!(pack_flags(&flags), 0);
    for i in [0, 1, 7, 31, 32, 39] {
        flags[i] = true;
    }
    let mask = pack_flags(&flags);
    assert_eq!(mask, 1 | 2 | 1 << 7 | 1 << 31 | 1 << 32 | 1 << 39);
    assert_eq!(unpack_flags(mask), flags);
    assert_eq!(unpack_flags(mask | 1 << 40), flags);
}

fn object(x: u8, oam_index: u8) -> Sprite {
    Sprite { y: 16, x, tile_index: 0, attributes: SpriteAttributes::from_byte(0), oam_index }
}

#[test]
fn objects_are_ordered_by_model() {
    let line = vec![object(50, 0), object(20, 1), object(50, 2), object(20, 3)];
    let mut dmg = line.clone();
    sort_line_sprites(false, &mut dmg);
    let order: Vec<u8> = dmg.iter().map(|s| s.oam_index).collect();
    assert_eq!(order, [1, 3, 0, 2]);
    let mut cgb = vec![object(50, 3), object(20, 1), object(50, 2), object(20, 0)];
    sort_line_sprites(true, &mut cgb);
    let order: Vec<u8> = cgb.iter().map(|s| s.oam_index).collect();
    assert_eq!(order, [0, 1, 2, 3]);
}

#[test]
fn attribute_bits_are_told_apart() {
    let a = SpriteAttributes::from_byte(0xA0);
    assert!(a.priority && !a.y_flip && a.x_flip && !a.palette);
    let b = SpriteAttributes::from_byte(0x50);
    assert!(!b.priority && b.y_flip && !b.x_flip && b.palette);
    assert_eq!(b.raw, 0x50);
}

#[test]
fn an_object_lengthens_drawing_by_six_to_eleven_dots() {
    assert_eq!(sprite_tile_walk_cost(&[], 0, 0xFF, 167, true), 0);
    assert_eq!(sprite_tile_walk_cost(&[8], 0, 0xFF, 167, false), 0);
    assert_eq!(sprite_tile_walk_cost(&[8], 0, 0xFF, 167, true), 11);
    for x in 1..160 {
        let cost = sprite_tile_walk_cost(&[x], 0, 0xFF, 167, true);
        assert!((6..=11).contains(&cost), "at {x}: {cost}");
    }
    // Two objects over the same tile: the second costs six.
    assert_eq!(sprite_tile_walk_cost(&[8, 8], 0, 0xFF, 167, true), 17);
}

#[test]
fn the_first_object_behind_a_window_pays_the_leading_rate() {
    // The grid behind the window starts at 21: X 29 is its column 1, on the edge.
    assert_eq!(sprite_tile_walk_cost(&[29], 0, 20, 167, true), 11);
    for x in 21..160 {
        let dist = (x - 21) % 8;
        let expected = if dist < 5 { 11 - dist } else { 6 };
        assert_eq!(sprite_tile_walk_cost(&[x], 0, 20, 167, true), expected, "at {x}");
    }
    // A second object in the same column pays six, one in the next column leads again.
    assert_eq!(sprite_tile_walk_cost(&[29, 30], 0, 20, 167, true), 17);
    assert_eq!(sprite_tile_walk_cost(&[29, 37], 0, 20, 167, true), 22);
    // One object on each side of the split.
    assert_eq!(sprite_tile_walk_cost(&[16, 29], 0, 20, 167, true), 22);
}

#[test]
fn a_history_holds_a_value_until_the_next() {
    let hist = [(0u64, 1u8), (40, 2), (80, 3)];
    assert_eq!(pal_at(&hist, 0, 9), 1);
    assert_eq!(pal_at(&hist, 39, 9), 1);
    assert_eq!(pal_at(&hist, 40, 9), 2);
    assert_eq!(pal_at(&hist, 159, 9), 3);
    assert_eq!(pal_at(&[], 10, 9), 9);
    assert_eq!(value_at_col(&[(5u64, true)], 6, false), true);
    let ticks = [(10u128, 1u8), (20, 2)];
    assert_eq!(pal_at_tick(&ticks, 15, 9), 1);
    assert_eq!(pal_at_tick(&ticks, 20, 9), 2);
    assert_eq!(pal_at_tick(&[], 20, 9), 9);
}

#[test]
fn lines_count_to_153() {
    assert_eq!(inc_ly(0), 1);
    assert_eq!(inc_ly(152), 153);
    assert_eq!(inc_ly(153), 0);
    assert_eq!(LyCounter { ly: 0, time: 0, ds: false }.line_time(), 456);
    assert_eq!(LyCounter { ly: 0, time: 0, ds: true }.line_time(), 912);
}
