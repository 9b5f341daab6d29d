use oxycap::checksum::checksum8;
use oxycap::checksum::u16_checksum16;
use oxycap::checksum::u16_slice_to_sum16;
use oxycap::checksum::u8_checksum16;
use oxycap::checksum::u8_slice_to_sum16;

/// Reference one's-complement sum, written independently of the library.
fn ref_sum16(bytes: &[u8]) -> u16 {
    let mut s: u64 = 0;
    let mut i = 0;
    while i + 1 < bytes.len() {
        s += ((bytes[i] as u64) << 8) | bytes[i + 1] as u64;
        i += 2;
    }
    if bytes.len() % 2 == 1 {
        s += (bytes[bytes.len() - 1] as u64) << 8;
    }
    while s > 0xFFFF {
        s = (s & 0xFFFF) + (s >> 16);
    }
    s as u16
}

#[test]
fn sum16_u16_basic() {
    assert_eq!(u16_slice_to_sum16(&[]), 0);
    assert_eq!(u16_slice_to_sum16(&[0x1234]), 0x1234);
    assert_eq!(u16_slice_to_sum16(&[0x1234, 0x5678]), 0x68AC);
}

#[test]
fn sum16_u16_end_around_carry() {
    // 0xFFFF + 0x0001 wraps end-around to 1, not 0.
    assert_eq!(u16_slice_to_sum16(&[0xFFFF, 0x0001]), 0x0001);
    // A full multiple of 0xFFFF folds to 0xFFFF, never to 0.
    assert_eq!(u16_slice_to_sum16(&[0xFFFF, 0xFFFF]), 0xFFFF);
    assert_eq!(u16_slice_to_sum16(&[0x8000, 0x8000, 0xFFFE]), 0xFFFF);
    assert_eq!(u16_slice_to_sum16(&[0x8000, 0x8000, 0xFFFC]), 0xFFFD);
}

#[test]
fn sum16_u8_pairs_big_endian() {
    assert_eq!(u8_slice_to_sum16(&[0x12, 0x34]), 0x1234);
    assert_eq!(u8_slice_to_sum16(&[0x12, 0x34, 0x56, 0x78]), 0x68AC);
}

#[test]
fn sum16_u8_odd_tail_is_high_byte() {
    // A trailing odd byte is promoted to the high-order byte of a word.
    assert_eq!(u8_slice_to_sum16(&[0x12]), 0x1200);
    assert_eq!(u8_slice_to_sum16(&[0x12, 0x34, 0x56]), 0x1234 + 0x5600);
}

#[test]
fn checksum16_is_complement() {
    assert_eq!(u8_checksum16(&[]), 0xFFFF);
    assert_eq!(u8_checksum16(&[0x12, 0x34]), !0x1234u16);
    assert_eq!(u16_checksum16(&[0x1234, 0x5678]), !0x68ACu16);
}

// The byte engine and the word engine agree on even-length input.
#[test]
fn bytes_as_words_agree() {
    let bytes = [0xDE, 0xAD, 0xBE, 0xEF, 0x01, 0x02, 0xFF, 0xFE];
    let words = [0xDEAD, 0xBEEF, 0x0102, 0xFFFE];
    assert_eq!(u8_slice_to_sum16(&bytes), u16_slice_to_sum16(&words));
    assert_eq!(u8_checksum16(&bytes), u16_checksum16(&words));
}

// Splitting at an even boundary and folding the partial sums together
// gives the sum of the whole.
#[test]
fn even_split_composes() {
    let whole: Vec<u8> = (0u16..40).map(|i| (i * 7 % 256) as u8).collect();
    for cut in [0usize, 2, 10, 20, 38, 40] {
        let a = u8_slice_to_sum16(&whole[..cut]);
        let b = u8_slice_to_sum16(&whole[cut..]);
        let folded = u16_slice_to_sum16(&[a, b]);
        assert_eq!(folded, u8_slice_to_sum16(&whole));
        assert_eq!(u16_checksum16(&[a, b]), u8_checksum16(&whole));
    }
}

// An odd split boundary may change the sum (the pairing shifts).
#[test]
fn odd_split_may_differ() {
    let whole = [0x12, 0x34, 0x56, 0x78];
    let a = u8_slice_to_sum16(&whole[..1]);
    let b = u8_slice_to_sum16(&whole[1..]);
    assert_ne!(u16_slice_to_sum16(&[a, b]), u8_slice_to_sum16(&whole));
}

#[test]
fn agrees_with_reference_on_assorted_inputs() {
    let cases: Vec<Vec<u8>> = vec![
        vec![],
        vec![0xFF],
        vec![0xFF; 7],
        vec![0xFF; 64],
        vec![0x00; 9],
        (0u16..=255).map(|b| b as u8).collect(),
    ];
    for c in cases {
        assert_eq!(u8_slice_to_sum16(&c), ref_sum16(&c));
        assert_eq!(u8_checksum16(&c), !ref_sum16(&c));
    }
}

#[test]
fn checksum8_basics() {
    assert_eq!(checksum8(&[]), 0xFF);
    assert_eq!(checksum8(&[1, 2, 3]), 0xFF - 6);
    // 0x80 + 0x80 = 0x100 folds end-around to 1; complement is 0xFE.
    assert_eq!(checksum8(&[0x80, 0x80]), 0xFE);
    // A positive multiple of 0xFF folds to 0xFF; complement is 0.
    assert_eq!(checksum8(&[0xFF, 0xFF]), 0x00);
}
