use wheel8::entropy::{assemble_entropy, ENTROPY_LEN, IDENTITY_LEN};

fn counting() -> [u8; 32] {
    let mut id = [0u8; 32];
    for (i, byte) in id.iter_mut().enumerate() {
        *byte = i as u8 + 1;
    }
    id
}

#[test]
fn entropy_is_identity_then_anchor_then_seed() {
    let buffer = assemble_entropy(&counting(), 1000, 42);
    let expected: Vec<u8> = vec![
        1, 2, 3, 4, 5, 6, 7, 8, 9, 10, 11, 12, 13, 14, 15, 16, 17, 18, 19, 20, 21, 22, 23, 24,
        25, 26, 27, 28, 29, 30, 31, 32, 232, 3, 0, 0, 0, 0, 0, 0, 42, 0, 0, 0, 0, 0, 0, 0,
    ];
    assert_eq!(buffer, expected);
}

#[test]
fn entropy_has_forty_eight_bytes() {
    assert_eq!(ENTROPY_LEN, 48);
    assert_eq!(IDENTITY_LEN, 32);
    assert_eq!(assemble_entropy(&[0; 32], 0, 0).len(), 48);
    assert_eq!(assemble_entropy(&[255; 32], u64::MAX, u64::MAX).len(), 48);
}

#[test]
fn entropy_of_zeros_is_all_zero() {
    assert_eq!(assemble_entropy(&[0; 32], 0, 0), vec![0u8; 48]);
}

#[test]
fn entropy_of_maxima_is_all_ones() {
    assert_eq!(assemble_entropy(&[255; 32], u64::MAX, u64::MAX), vec![255u8; 48]);
}

#[test]
fn entropy_encodes_lowest_byte_first() {
    let buffer = assemble_entropy(&[0; 32], 0x0123_4567_89ab_cdef, 0x8000_0000_0000_0001);
    assert_eq!(buffer[32..40], [0xef, 0xcd, 0xab, 0x89, 0x67, 0x45, 0x23, 0x01]);
    assert_eq!(buffer[40..48], [0x01, 0, 0, 0, 0, 0, 0, 0x80]);
}

#[test]
fn entropy_agrees_with_the_standard_encoding() {
    let samples: [u64; 7] = [0, 1, 255, 256, 65_535, 1 << 32, u64::MAX - 1];
    for anchor in samples {
        for seed in samples {
            let buffer = assemble_entropy(&counting(), anchor, seed);
            assert_eq!(buffer[..32], counting());
            assert_eq!(buffer[32..40], anchor.to_le_bytes());
            assert_eq!(buffer[40..48], seed.to_le_bytes());
        }
    }
}

#[test]
fn entropy_tells_anchor_from_seed() {
    let one = assemble_entropy(&counting(), 1000, 42);
    let other = assemble_entropy(&counting(), 42, 1000);
    assert_ne!(one, other);
    assert_eq!(one[32..40], other[40..48]);
    assert_eq!(one[40..48], other[32..40]);
}
