use leachuuid7::Uuid7;
use leachuuid7::hex::{hex_char, hex_value};

#[test]
fn formats_a_known_value() {
    let id = Uuid7::from_parts(0x0123_4567_89ab, [0xff; 10]);
    assert_eq!(id.to_string(), "01234567-89ab-7fff-bfff-ffffffffffff");
    let id = Uuid7::from_parts(0x0123_4567_89ab, [0x00; 10]);
    assert_eq!(id.to_string(), "01234567-89ab-7000-8000-000000000000");
}

#[test]
fn formats_each_byte_high_digit_first() {
    let id = Uuid7::from_parts(0x1f2e_3d4c_5b6a, [0x09, 0x18, 0x27, 0x36, 0x45, 0x54, 0x63, 0x72, 0x81, 0x90]);
    assert_eq!(id.to_string(), "1f2e3d4c-5b6a-7918-a736-455463728190");
}

#[test]
fn text_has_the_canonical_shape() {
    let ids = [
        Uuid7::from_parts(0, [0; 10]),
        Uuid7::from_parts(u64::MAX, [0xff; 10]),
        Uuid7::from_parts(0x0184_e1a0_7e2a, [0x3d, 0x40, 0x4f, 0x3b, 0x5c, 0x1a, 0x2b, 0x3c, 0x4d, 0x5e]),
    ];
    for id in ids {
        let text = id.to_string();
        let chars: Vec<char> = text.chars().collect();
        assert_eq!(chars.len(), 36);
        for (i, c) in chars.iter().enumerate() {
            if i == 8 || i == 13 || i == 18 || i == 23 {
                assert_eq!(*c, '-');
            } else {
                assert!(matches!(*c, '0'..='9' | 'a'..='f'), "{:?} at {}", c, i);
            }
        }
        assert_eq!(chars[14], '7');
        assert!(matches!(chars[19], '8' | '9' | 'a' | 'b'));
    }
}

#[test]
fn parsing_undoes_formatting() {
    let ids = [
        Uuid7::from_parts(0, [0; 10]),
        Uuid7::from_parts(u64::MAX, [0xff; 10]),
        Uuid7::from_parts(0x0184_e1a0_7e2a, [0x3d, 0x40, 0x4f, 0x3b, 0x5c, 0x1a, 0x2b, 0x3c, 0x4d, 0x5e]),
        Uuid7::from_parts(1_700_000_000_000, [1, 2, 3, 4, 5, 6, 7, 8, 9, 10]),
    ];
    for id in ids {
        assert_eq!(Uuid7::from_str(&id.to_string()), Ok(id));
    }
}

#[test]
fn formatting_undoes_parsing_of_lower_case_text() {
    let text = "0184e1a0-7e2a-7d40-8f3b-5c1a2b3c4d5e";
    assert_eq!(Uuid7::from_str(text).unwrap().to_string(), text);
}

#[test]
fn knows_the_value_of_every_hex_digit() {
    for (i, c) in "0123456789abcdef".chars().enumerate() {
        assert_eq!(hex_value(c), Some(i as u8));
        assert_eq!(hex_char(i as u8), c);
    }
    for (i, c) in "ABCDEF".chars().enumerate() {
        assert_eq!(hex_value(c), Some(10 + i as u8));
    }
}

#[test]
fn gives_no_value_to_other_characters() {
    for c in ['/', ':', '@', 'G', '`', 'g', ' ', '-', '+', 'x', '\u{0}', '\u{ff10}', '\u{e9}'] {
        assert_eq!(hex_value(c), None, "{:?}", c);
    }
}
