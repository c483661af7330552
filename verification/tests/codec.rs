//! Compact pictures: round trips, the form that is chosen, the stored bytes.

use rustyboi_ppu::fb_rle::{decode, encode, EncodedFb, FbError};

/// The form as bincode stores it: the tag, then the fields.
fn stored(e: &EncodedFb) -> Vec<u8> {
    match e {
        EncodedFb::Solid { color, tail } => bincode::serialize(&(0u32, color, tail)),
        EncodedFb::Indexed8 { palette, indices, tail } => {
            bincode::serialize(&(1u32, palette, indices, tail))
        }
        EncodedFb::Indexed16 { palette, indices, tail } => {
            bincode::serialize(&(2u32, palette, indices, tail))
        }
        EncodedFb::Rle(runs) => bincode::serialize(&(3u32, runs)),
        EncodedFb::Raw(bytes) => bincode::serialize(&(4u32, bytes)),
    }
    .unwrap()
}

/// The form that bincode reads from stored bytes.
fn read(bytes: &[u8]) -> EncodedFb {
    let tag: u32 = bincode::deserialize(&bytes[0..4]).unwrap();
    let fields = &bytes[4..];
    match tag {
        0 => {
            let (color, tail) = bincode::deserialize(fields).unwrap();
            EncodedFb::Solid { color, tail }
        }
        1 => {
            let (palette, indices, tail) = bincode::deserialize(fields).unwrap();
            EncodedFb::Indexed8 { palette, indices, tail }
        }
        2 => {
            let (palette, indices, tail) = bincode::deserialize(fields).unwrap();
            EncodedFb::Indexed16 { palette, indices, tail }
        }
        3 => EncodedFb::Rle(bincode::deserialize(fields).unwrap()),
        4 => EncodedFb::Raw(bincode::deserialize(fields).unwrap()),
        _ => panic!("no form has tag {tag}"),
    }
}

fn roundtrip(buf: &[u8]) -> Vec<u8> {
    let enc = encode(&buf.to_vec());
    let bytes = enc.to_wire();
    assert_eq!(bytes, stored(&enc), "stored bytes are not bincode's");
    let back = decode(&read(&bytes), buf.len());
    assert_eq!(back, Ok(buf.to_vec()), "framebuffer did not round-trip byte-exact");
    bytes
}

#[test]
fn dmg_like_four_color_frame_uses_indexed8_and_shrinks() {
    const N: usize = 160 * 144 * 3;
    let palette = [[224, 248, 208], [136, 192, 112], [52, 104, 86], [8, 24, 32]];
    let mut buf = vec![0u8; N];
    for (p, px) in buf.chunks_mut(3).enumerate() {
        px.copy_from_slice(&palette[(p * 7 + p / 160) % 4]);
    }
    let enc = roundtrip(&buf);
    assert_eq!(&enc[0..4], &[1, 0, 0, 0]);
    assert!(enc.len() < N, "indexed frame must be smaller than raw, got {} vs {N}", enc.len());
    assert!(enc.len() < N / 2, "four-color frame should be well under half raw, got {}", enc.len());
}

#[test]
fn empty_buffer_round_trips() {
    roundtrip(&[0u8; 0]);
}

#[test]
fn single_color_frame_uses_solid_and_is_tiny() {
    let enc = roundtrip(&[0x42u8; 160 * 144 * 3]);
    assert!(enc.len() < 64, "solid frame must cost a few bytes, got {}", enc.len());
}

#[test]
fn blank_all_zero_frame_is_tiny() {
    let enc = roundtrip(&[0u8; 160 * 144 * 3]);
    assert!(enc.len() < 64, "blank frame must cost a few bytes, got {}", enc.len());
}

#[test]
fn high_entropy_many_color_frame_round_trips() {
    let mut buf = [0u8; 300 * 3];
    for (p, px) in buf.chunks_mut(3).enumerate() {
        let v = (p % 200) as u8;
        px.copy_from_slice(&[v, v.wrapping_add(1), v.wrapping_add(2)]);
    }
    roundtrip(&buf);
}

#[test]
fn length_not_multiple_of_three_round_trips() {
    let mut buf = [0u8; 3 * 5 + 2];
    for (i, b) in buf.iter_mut().enumerate() {
        *b = (i * 17 + 3) as u8;
    }
    roundtrip(&buf);
}

#[test]
fn over_256_distinct_colors_forces_indexed16() {
    let mut buf = [0u8; 4000 * 3];
    for (p, px) in buf.chunks_mut(3).enumerate() {
        let c = p % 400;
        px.copy_from_slice(&[(c >> 8) as u8, (c & 0xFF) as u8, 0]);
    }
    let enc = encode(&buf.to_vec()).to_wire();
    assert_eq!(&enc[0..4], &[2, 0, 0, 0], "expected INDEXED16 tag (2)");
    assert!(enc.len() < buf.len(), "INDEXED16 must still beat raw here, got {}", enc.len());
    roundtrip(&buf);
}

#[test]
fn wire_shape_pinned_solid() {
    let enc = encode(&vec![0u8; 12]).to_wire();
    let mut expected = vec![0, 0, 0, 0];
    expected.extend_from_slice(&[0, 0, 0]);
    expected.extend_from_slice(&0u64.to_le_bytes());
    assert_eq!(enc, expected);
}

#[test]
fn wire_shape_pinned_indexed8() {
    let a = [10u8, 20, 30];
    let b = [40u8, 50, 60];
    let mut buf = [0u8; 48];
    for (p, px) in buf.chunks_mut(3).enumerate() {
        px.copy_from_slice(if p % 2 == 0 { &a } else { &b });
    }
    let enc = encode(&buf.to_vec()).to_wire();
    let mut expected = vec![1, 0, 0, 0];
    expected.extend_from_slice(&2u64.to_le_bytes());
    expected.extend_from_slice(&[10, 20, 30, 40, 50, 60]);
    expected.extend_from_slice(&16u64.to_le_bytes());
    expected.extend_from_slice(&[0, 1, 0, 1, 0, 1, 0, 1, 0, 1, 0, 1, 0, 1, 0, 1]);
    expected.extend_from_slice(&0u64.to_le_bytes());
    assert_eq!(enc, expected);
}

#[test]
fn run_heavy_mono_buffer_prefers_rle() {
    let mut buf = [0u8; 300];
    for (i, b) in buf.iter_mut().enumerate() {
        *b = (i / 30) as u8;
    }
    let enc = encode(&buf.to_vec()).to_wire();
    assert_eq!(&enc[0..4], &[3, 0, 0, 0], "expected Rle tag (3)");
    assert!(enc.len() < buf.len(), "run-heavy buffer must beat raw, got {}", enc.len());
    roundtrip(&buf);
}

#[test]
fn wire_shape_of_the_other_forms() {
    let rle = EncodedFb::Rle(vec![(7, 0x0102_0304), (9, 1)]).to_wire();
    let mut expected = vec![3, 0, 0, 0];
    expected.extend_from_slice(&2u64.to_le_bytes());
    expected.extend_from_slice(&[7, 4, 3, 2, 1, 9, 1, 0, 0, 0]);
    assert_eq!(rle, expected);

    let raw = EncodedFb::Raw(vec![5, 6]).to_wire();
    let mut expected = vec![4, 0, 0, 0];
    expected.extend_from_slice(&2u64.to_le_bytes());
    expected.extend_from_slice(&[5, 6]);
    assert_eq!(raw, expected);

    let wide = EncodedFb::Indexed16 {
        palette: vec![[1, 2, 3]],
        indices: vec![0x0100],
        tail: vec![8],
    };
    let mut expected = vec![2, 0, 0, 0];
    expected.extend_from_slice(&1u64.to_le_bytes());
    expected.extend_from_slice(&[1, 2, 3]);
    expected.extend_from_slice(&1u64.to_le_bytes());
    expected.extend_from_slice(&[0, 1]);
    expected.extend_from_slice(&1u64.to_le_bytes());
    expected.push(8);
    assert_eq!(wide.to_wire(), expected);
}

#[test]
fn decoding_reports_what_is_wrong() {
    let solid = EncodedFb::Solid { color: [1, 2, 3], tail: vec![] };
    assert_eq!(decode(&solid, 7), Err(FbError::SolidTailLength));
    assert_eq!(decode(&solid, 6), Ok(vec![1, 2, 3, 1, 2, 3]));
    assert_eq!(decode(&EncodedFb::Raw(vec![1, 2]), 3), Err(FbError::RawLength));
    let short = EncodedFb::Indexed8 { palette: vec![[0; 3]], indices: vec![0], tail: vec![] };
    assert_eq!(decode(&short, 6), Err(FbError::IndexLength));
    let range = EncodedFb::Indexed8 { palette: vec![[0; 3]], indices: vec![1], tail: vec![] };
    assert_eq!(decode(&range, 3), Err(FbError::IndexRange));
    let wide = EncodedFb::Indexed16 { palette: vec![[0; 3]], indices: vec![300], tail: vec![] };
    assert_eq!(decode(&wide, 3), Err(FbError::IndexRange));
    let long = EncodedFb::Rle(vec![(1, 4)]);
    assert_eq!(decode(&long, 3), Err(FbError::RleOverflow));
    assert_eq!(decode(&long, 5), Err(FbError::RleUnderflow));
    assert_eq!(decode(&long, 4), Ok(vec![1, 1, 1, 1]));
}

#[test]
fn each_error_has_its_message() {
    assert_eq!(FbError::SolidTailLength.message(), "framebuffer solid tail length mismatch");
    assert_eq!(FbError::RawLength.message(), "framebuffer raw length mismatch");
    assert_eq!(FbError::IndexLength.message(), "framebuffer index length mismatch");
    assert_eq!(FbError::IndexRange.message(), "framebuffer index out of range");
    assert_eq!(FbError::RleOverflow.message(), "framebuffer RLE overflow");
    assert_eq!(FbError::RleUnderflow.message(), "framebuffer RLE underflow");
}

#[test]
fn raw_buffers_round_trip() {
    // Every byte differs from its neighbour and there are as many colours as pixels.
    let buf: Vec<u8> = (0..30u8).map(|i| i.wrapping_mul(37)).collect();
    let bytes = roundtrip(&buf);
    assert_eq!(&bytes[0..4], &[4, 0, 0, 0]);
    assert_eq!(bytes.len(), 12 + 30);
}

#[test]
fn buffers_that_differ_are_stored_differently() {
    let mut seen: Vec<Vec<u8>> = Vec::new();
    let mut buf = vec![7u8; 60];
    for i in 0..60 {
        buf[i] = (i * 5) as u8;
        let bytes = roundtrip(&buf);
        assert!(!seen.contains(&bytes), "change {i}");
        seen.push(bytes);
    }
}
