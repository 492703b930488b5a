use leachuuid7::Uuid7;
use std::collections::HashSet;

#[test]
fn assembles_timestamp_version_variant_and_random_bits() {
    let random = [0xa1, 0xb2, 0xc3, 0xd4, 0xe5, 0xf6, 0x07, 0x18, 0x29, 0x3a];
    let id = Uuid7::from_parts(0x0123_4567_89ab, random);
    assert_eq!(
        id.as_bytes(),
        &[
            0x01, 0x23, 0x45, 0x67, 0x89, 0xab, 0x71, 0xb2, 0x83, 0xd4, 0xe5, 0xf6, 0x07, 0x18,
            0x29, 0x3a
        ]
    );
}

#[test]
fn writes_version_and_variant_over_the_random_bits() {
    for first in [0x00u8, 0x0f, 0x5a, 0xf0, 0xff] {
        for third in [0x00u8, 0x3f, 0x40, 0x80, 0xc0, 0xff] {
            let mut random = [0x55; 10];
            random[0] = first;
            random[2] = third;
            let id = Uuid7::from_parts(0, random);
            let bytes = id.as_bytes();
            assert_eq!(bytes[6], 0x70 | (first & 0x0f));
            assert_eq!(bytes[8], 0x80 | (third & 0x3f));
            assert_eq!(bytes[6] >> 4, 7);
            assert_eq!(bytes[8] >> 6, 0b10);
            assert_eq!(bytes[7], 0x55);
            assert_eq!(&bytes[9..], &[0x55; 7]);
        }
    }
}

#[test]
fn keeps_the_low_48_bits_of_the_timestamp() {
    let full = Uuid7::from_parts(0xffff_0123_4567_89ab, [0; 10]);
    let low = Uuid7::from_parts(0x0123_4567_89ab, [0; 10]);
    assert_eq!(full, low);
    assert_eq!(&full.as_bytes()[..6], &[0x01, 0x23, 0x45, 0x67, 0x89, 0xab]);
    let top = Uuid7::from_parts(u64::MAX, [0; 10]);
    assert_eq!(&top.as_bytes()[..6], &[0xff; 6]);
    let one = Uuid7::from_parts(1, [0; 10]);
    assert_eq!(&one.as_bytes()[..6], &[0, 0, 0, 0, 0, 1]);
}

#[test]
fn gives_the_payload_as_one_integer() {
    let id = Uuid7::from_parts(0x0123_4567_89ab, [0xff; 10]);
    assert_eq!(id.as_u128(), 0x0123_4567_89ab_7fff_bfff_ffff_ffff_ffff);
    let id = Uuid7::from_parts(0, [0; 10]);
    assert_eq!(id.as_u128(), 0x0000_0000_0000_7000_8000_0000_0000_0000);
    let id = Uuid7::from_str("0184e1a0-7e2a-7d40-8f3b-5c1a2b3c4d5e").unwrap();
    assert_eq!(id.as_u128(), 0x0184e1a0_7e2a_7d40_8f3b_5c1a2b3c4d5e);
    assert_eq!(id.as_u128(), u128::from_be_bytes(*id.as_bytes()));
}

#[test]
fn integer_holds_each_byte_at_its_place() {
    let ids = [
        Uuid7::from_parts(0x0123_4567_89ab, [0xa1, 0xb2, 0xc3, 0xd4, 0xe5, 0xf6, 0x07, 0x18, 0x29, 0x3a]),
        Uuid7::from_parts(u64::MAX, [0xff; 10]),
        Uuid7::from_parts(0, [0; 10]),
    ];
    for id in ids {
        let value = id.as_u128();
        let bytes = id.as_bytes();
        for i in 0..16 {
            assert_eq!(((value >> (120 - (i * 8))) & 0xff) as u8, bytes[i]);
        }
    }
}

#[test]
fn values_differ_exactly_when_a_kept_bit_differs() {
    let base = Uuid7::from_parts(42, [0; 10]);
    // Bits that the version and the variant replace make no difference.
    assert_eq!(Uuid7::from_parts(42, [0xf0, 0, 0xc0, 0, 0, 0, 0, 0, 0, 0]), base);
    // Every other bit does.
    for byte in 0..10 {
        for bit in 0..8 {
            let replaced = (byte == 0 && bit >= 4) || (byte == 2 && bit >= 6);
            let mut random = [0u8; 10];
            random[byte] = 1 << bit;
            assert_eq!(Uuid7::from_parts(42, random) == base, replaced);
        }
    }
    assert_ne!(Uuid7::from_parts(43, [0; 10]), base);
}

#[test]
fn copies_and_hashes_by_payload() {
    let a = Uuid7::from_parts(7, [1; 10]);
    let b = a;
    let c = a.clone();
    assert_eq!(a, b);
    assert_eq!(a, c);
    let mut set = HashSet::new();
    set.insert(a);
    set.insert(b);
    set.insert(Uuid7::from_parts(7, [2; 10]));
    assert_eq!(set.len(), 2);
    assert!(set.contains(&Uuid7::from_str(&a.to_string()).unwrap()));
}
