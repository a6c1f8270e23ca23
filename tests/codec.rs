use lindel_codec::codec::{decode, encode, perform_decode, CurveType};
use lindel_codec::hilbert::{hilbert_decode, hilbert_encode};
use lindel_codec::morton::{morton_decode, morton_encode};
use lindel_codec::width::{resolve_width, CodecError};

const WIDTHS: [u32; 4] = [8, 16, 32, 64];

fn next(state: &mut u64) -> u64 {
    *state = state.wrapping_mul(6364136223846793005).wrapping_add(1442695040888963407);
    *state >> 11
}

fn mask(b: u32) -> u64 {
    if b == 64 {
        u64::MAX
    } else {
        (1u64 << b) - 1
    }
}

#[test]
fn width_table_matches() {
    for b in WIDTHS {
        for d in 1..=(128 / b as usize) {
            let n = d as u32 * b;
            let expected = [8u32, 16, 32, 64, 128].into_iter().find(|&w| w >= n).unwrap();
            assert_eq!(resolve_width(b, d), Ok(expected));
        }
    }
    assert_eq!(resolve_width(8, 3), Ok(32));
    assert_eq!(resolve_width(16, 3), Ok(64));
    assert_eq!(resolve_width(32, 3), Ok(128));
    assert_eq!(resolve_width(64, 1), Ok(64));
    assert_eq!(resolve_width(8, 9), Ok(128));
}

#[test]
fn arity_boundaries() {
    assert_eq!(resolve_width(8, 16), Ok(128));
    assert_eq!(resolve_width(8, 17), Err(CodecError::InvalidArity));
    assert_eq!(resolve_width(16, 8), Ok(128));
    assert_eq!(resolve_width(16, 9), Err(CodecError::InvalidArity));
    assert_eq!(resolve_width(32, 4), Ok(128));
    assert_eq!(resolve_width(32, 5), Err(CodecError::InvalidArity));
    assert_eq!(resolve_width(64, 2), Ok(128));
    assert_eq!(resolve_width(64, 3), Err(CodecError::InvalidArity));
    for b in WIDTHS {
        assert_eq!(resolve_width(b, 0), Err(CodecError::InvalidArity));
    }
}

#[test]
fn invalid_element_widths() {
    for b in [0u32, 1, 4, 7, 12, 24, 48, 128, 256] {
        assert_eq!(resolve_width(b, 1), Err(CodecError::InvalidElementWidth));
        assert_eq!(encode(CurveType::Morton, &vec![1, 2], b), Err(CodecError::InvalidElementWidth));
        assert_eq!(decode(CurveType::Hilbert, 3, b, 2), Err(CodecError::InvalidElementWidth));
    }
}

#[test]
fn encode_rejects_bad_arity() {
    assert_eq!(encode(CurveType::Morton, &vec![], 8), Err(CodecError::InvalidArity));
    assert_eq!(encode(CurveType::Hilbert, &vec![1; 17], 8), Err(CodecError::InvalidArity));
    assert_eq!(encode(CurveType::Hilbert, &vec![1; 3], 64), Err(CodecError::InvalidArity));
    assert_eq!(decode(CurveType::Morton, 0, 32, 5), Err(CodecError::InvalidArity));
    assert!(encode(CurveType::Hilbert, &vec![255; 16], 8).is_ok());
    assert!(encode(CurveType::Morton, &vec![u64::MAX; 2], 64).is_ok());
}

#[test]
fn morton_two_dimensions() {
    assert_eq!(morton_encode(&vec![0b101, 0b010], 8), 0b011001);
    assert_eq!(encode(CurveType::Morton, &vec![0b101, 0b010], 8), Ok(0b011001));
    assert_eq!(morton_encode(&vec![0xff, 0], 8), 0x5555);
    assert_eq!(morton_encode(&vec![0, 0xff], 8), 0xaaaa);
}

#[test]
fn morton_three_dimensions() {
    assert_eq!(morton_encode(&vec![1, 2, 4], 8), 0b100010001);
    assert_eq!(morton_encode(&vec![3, 0, 0], 8), 0b1001);
    assert_eq!(morton_decode(0b100010001, 8, 3), vec![1, 2, 4]);
}

#[test]
fn morton_one_dimension_is_identity() {
    assert_eq!(morton_encode(&vec![0xabcd], 16), 0xabcd);
    assert_eq!(morton_decode(0xdead_beef, 32, 1), vec![0xdead_beef]);
}

#[test]
fn morton_decode_ignores_unused_high_bits() {
    // Three 8-bit coordinates use 24 bits of a 32-bit key.
    assert_eq!(morton_decode(0xff00_0000 | 0b100010001, 8, 3), vec![1, 2, 4]);
    assert_eq!(decode(CurveType::Hilbert, 0xff00_0000, 8, 3), Ok(vec![0, 0, 0]));
}

#[test]
fn hilbert_known_values() {
    assert_eq!(hilbert_encode(&vec![4, 5, 6], 8), 351);
    assert_eq!(hilbert_decode(351, 8, 3), vec![4, 5, 6]);
    assert_eq!(hilbert_decode(0xDEAD_BEEF, 8, 4), vec![199, 38, 136, 240]);
    assert_eq!(hilbert_encode(&vec![199, 38, 136, 240], 8), 0xDEAD_BEEF);
    assert_eq!(hilbert_encode(&vec![0, 0], 16), 0);
}

#[test]
fn hilbert_differs_from_morton() {
    let v = vec![4u64, 5, 6];
    assert_ne!(hilbert_encode(&v, 8), morton_encode(&v, 8));
}

#[test]
fn round_trip_every_shape() {
    let mut state = 7u64;
    for curve in [CurveType::Hilbert, CurveType::Morton] {
        for b in WIDTHS {
            for d in 1..=(128 / b as usize) {
                for _ in 0..20 {
                    let values: Vec<u64> = (0..d).map(|_| next(&mut state) & mask(b)).collect();
                    let key = encode(curve, &values, b).unwrap();
                    let w = resolve_width(b, d).unwrap();
                    if w < 128 {
                        assert!(key < (1u128 << w));
                    }
                    assert_eq!(decode(curve, key, b, d), Ok(values.clone()));
                    let back = perform_decode(curve.tag(), b as u8, key, d).unwrap();
                    assert_eq!(back, values);
                }
                let top = vec![mask(b); d];
                let key = encode(curve, &top, b).unwrap();
                assert_eq!(decode(curve, key, b, d), Ok(top));
            }
        }
    }
}

#[test]
fn decode_tag_boundary() {
    assert_eq!(CurveType::from_tag(0), Ok(CurveType::Hilbert));
    assert_eq!(CurveType::from_tag(1), Ok(CurveType::Morton));
    for tag in [2u8, 3, 7, 128, 255] {
        assert_eq!(CurveType::from_tag(tag), Err(CodecError::InvalidEncodingType));
        assert_eq!(perform_decode(tag, 8, 5, 2), Err(CodecError::InvalidEncodingType));
    }
    assert_eq!(perform_decode(0, 8, 351, 3), Ok(vec![4, 5, 6]));
    assert_eq!(perform_decode(1, 8, 0b011001, 2), Ok(vec![0b101, 0b010]));
    assert_eq!(perform_decode(9, 12, 0, 2), Err(CodecError::InvalidElementWidth));
    assert_eq!(perform_decode(9, 8, 0, 17), Err(CodecError::InvalidArity));
}

#[test]
fn hilbert_neighbours_are_closer_typically() {
    let mut state = 99u64;
    let mut h = Vec::new();
    let mut m = Vec::new();
    for _ in 0..4000 {
        let x = next(&mut state) % 255;
        let y = next(&mut state) % 256;
        let (a, b) = if next(&mut state) % 2 == 0 {
            (vec![x, y], vec![x + 1, y])
        } else {
            (vec![y, x], vec![y, x + 1])
        };
        let ha = hilbert_encode(&a, 8) as i128;
        let hb = hilbert_encode(&b, 8) as i128;
        let ma = morton_encode(&a, 8) as i128;
        let mb = morton_encode(&b, 8) as i128;
        h.push((ha - hb).abs());
        m.push((ma - mb).abs());
    }
    h.sort();
    m.sort();
    assert!(h[h.len() / 2] < m[m.len() / 2]);
    // Consecutive Hilbert indices are always neighbours.
    for k in 0u128..1000 {
        let p = hilbert_decode(k, 8, 2);
        let q = hilbert_decode(k + 1, 8, 2);
        let dist = p[0].abs_diff(q[0]) + p[1].abs_diff(q[1]);
        assert_eq!(dist, 1);
    }
}

#[test]
fn key_round_trip_every_shape() {
    let mut state = 3u64;
    for curve in [CurveType::Hilbert, CurveType::Morton] {
        for b in WIDTHS {
            for d in 1..=(128 / b as usize) {
                let n = b * d as u32;
                for _ in 0..20 {
                    let raw = ((next(&mut state) as u128) << 64) | next(&mut state) as u128;
                    let key = if n >= 128 { raw } else { raw & ((1u128 << n) - 1) };
                    let values = decode(curve, key, b, d).unwrap();
                    assert_eq!(encode(curve, &values, b), Ok(key));
                }
            }
        }
    }
}
