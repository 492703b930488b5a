use leachuuid7::Uuid7;
use std::str::FromStr;

fn check_canonical_format(s: &str) {
    // The canonical UUID string is 36 characters with dashes at positions 8, 13, 18, 23.
    assert_eq!(s.len(), 36);
    assert_eq!(s.chars().nth(8).unwrap(), '-');
    assert_eq!(s.chars().nth(13).unwrap(), '-');
    assert_eq!(s.chars().nth(18).unwrap(), '-');
    assert_eq!(s.chars().nth(23).unwrap(), '-');
}

#[test]
fn test_uuid7_new() {
    let uuid = Uuid7::new().expect("Time went backwards");
    let s = uuid.to_string();
    println!("Generated UUID: {}", s);

    check_canonical_format(&s);

    // xxxxxxxx-xxxx-Mxxx-Nxxx-xxxxxxxxxxxx
    // where M is the version (7) and N is the variant (8, 9, a, or b)

    // Version character should be at position 14 (15th character)
    let version_char = s.chars().nth(14).unwrap();
    assert_eq!(version_char, '7', "Version character should be '7', found '{}' in UUID: {}", version_char, s);

    // Variant character should be at position 19 (20th character)
    let variant_char = s.chars().nth(19).unwrap();
    assert!(
        matches!(variant_char, '8' | '9' | 'a' | 'b'),
        "Variant character '{}' is not one of '8', '9', 'a', or 'b' in UUID: {}",
        variant_char,
        s
    );
}

#[test]
fn test_uuid7_from_str_valid() {
    // Create a valid UUIDv7 string using our generator.
    let uuid_orig = Uuid7::new().expect("Time went backwards");
    let s = uuid_orig.to_string();
    println!("Testing parsing of valid UUID: {}", s);

    let uuid_parsed = Uuid7::from_str(&s).expect("Parsing should succeed");
    assert_eq!(uuid_orig, uuid_parsed);
}

#[test]
fn test_uuid7_from_str_invalid_length() {
    let s = "1234";
    let err = Uuid7::from_str(s).unwrap_err();
    assert!(err.0.contains("Invalid"), "Error should mention invalid length");
}

#[test]
fn test_uuid7_from_str_invalid_version() {
    // A valid format but with version 1 instead of 7
    let s = "01234567-89ab-1def-8123-456789abcdef";
    let err = Uuid7::from_str(s).unwrap_err();
    assert!(err.0.contains("Invalid version"), "Error should mention invalid version");
}

#[test]
fn test_uuid7_uniqueness() {
    let uuid1 = Uuid7::new().expect("Time went backwards");
    let uuid2 = Uuid7::new().expect("Time went backwards");
    assert_ne!(uuid1, uuid2, "Two generated UUIDs should be different");
}

#[test]
fn test_roundtrip_as_u128() {
    let uuid = Uuid7::new().expect("Time went backwards");
    let value = uuid.as_u128();
    let bytes = uuid.as_bytes();

    // Check that each byte is in the correct position
    for i in 0..16 {
        let expected = bytes[i];
        let actual = ((value >> (120 - (i * 8))) & 0xFF) as u8;
        assert_eq!(expected, actual, "Byte at position {} doesn't match", i);
    }
}
