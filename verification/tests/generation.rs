use leachuuid7::{ClockError, RandomSource, Uuid7};
use std::time::{SystemTime, UNIX_EPOCH};

struct Fixed([u8; 10]);

impl RandomSource for Fixed {
    fn random_bytes(&mut self) -> [u8; 10] {
        self.0
    }
}

struct Counting(u8);

impl RandomSource for Counting {
    fn random_bytes(&mut self) -> [u8; 10] {
        self.0 += 1;
        [self.0; 10]
    }
}

fn millis_now() -> u64 {
    SystemTime::now().duration_since(UNIX_EPOCH).unwrap().as_millis() as u64
}

fn timestamp(id: &Uuid7) -> u64 {
    (id.as_u128() >> 80) as u64
}

#[test]
fn takes_the_random_bits_from_the_source() {
    let mut source = Fixed([0xa1, 0xb2, 0xc3, 0xd4, 0xe5, 0xf6, 0x07, 0x18, 0x29, 0x3a]);
    let id = Uuid7::new_with_rng(&mut source).unwrap();
    assert_eq!(&id.as_bytes()[6..], &[0x71, 0xb2, 0x83, 0xd4, 0xe5, 0xf6, 0x07, 0x18, 0x29, 0x3a]);
}

#[test]
fn asks_the_source_once_for_each_identifier() {
    let mut source = Counting(0);
    let first = Uuid7::new_with_rng(&mut source).unwrap();
    let second = Uuid7::new_with_rng(&mut source).unwrap();
    assert_eq!(first.as_bytes()[15], 1);
    assert_eq!(second.as_bytes()[15], 2);
    assert_eq!(source.0, 2);
}

#[test]
fn takes_the_timestamp_from_the_clock() {
    let before = millis_now();
    let id = Uuid7::new_with_rng(&mut Fixed([0; 10])).unwrap();
    let after = millis_now();
    let mask = (1u64 << 48) - 1;
    assert!(before & mask <= timestamp(&id) && timestamp(&id) <= after & mask);
}

#[test]
fn is_what_from_parts_makes_of_clock_and_source() {
    let random = [0x10, 0x32, 0x54, 0x76, 0x98, 0xba, 0xdc, 0xfe, 0x01, 0x23];
    let id = Uuid7::new_with_rng(&mut Fixed(random)).unwrap();
    assert_eq!(id, Uuid7::from_parts(timestamp(&id), random));
}

#[test]
fn takes_a_generator_of_the_rand_crate() {
    let mut rng = rand::rng();
    let a = Uuid7::new_with_rng(&mut rng).unwrap();
    let b = Uuid7::new_with_rng(&mut rng).unwrap();
    assert_ne!(a, b);
    assert_eq!(a.as_bytes()[6] >> 4, 7);
    assert_eq!(a.as_bytes()[8] >> 6, 0b10);
}

#[test]
fn identifier_of_a_later_millisecond_sorts_after() {
    let first = Uuid7::new().unwrap();
    let mut second = Uuid7::new().unwrap();
    while timestamp(&second) == timestamp(&first) {
        second = Uuid7::new().unwrap();
    }
    assert_eq!(first < second, timestamp(&first) < timestamp(&second));
}

#[test]
fn new_identifiers_are_version_7() {
    for _ in 0..100 {
        let id = Uuid7::new().unwrap();
        assert_eq!(id.as_bytes()[6] >> 4, 7);
        assert_eq!(id.as_bytes()[8] >> 6, 0b10);
        assert_eq!(Uuid7::from_str(&id.to_string()), Ok(id));
    }
}

#[test]
fn takes_a_source_behind_a_trait_object() {
    let mut boxed: Box<dyn RandomSource> = Box::new(Fixed([0x0f; 10]));
    let id = Uuid7::new_with_rng(&mut *boxed).unwrap();
    assert_eq!(&id.as_bytes()[6..], &[0x7f, 0x0f, 0x8f, 0x0f, 0x0f, 0x0f, 0x0f, 0x0f, 0x0f, 0x0f]);
}

#[test]
fn hands_a_failed_reading_on_without_asking_the_source() {
    let mut source = Counting(0);
    assert_eq!(Uuid7::from_reading(Err(ClockError), &mut source), Err(ClockError));
    assert_eq!(source.0, 0);
}

#[test]
fn makes_of_a_reading_what_from_parts_makes() {
    let random = [0xa1, 0xb2, 0xc3, 0xd4, 0xe5, 0xf6, 0x07, 0x18, 0x29, 0x3a];
    let id = Uuid7::from_reading(Ok(0x0123_4567_89ab), &mut Fixed(random)).unwrap();
    assert_eq!(id, Uuid7::from_parts(0x0123_4567_89ab, random));
    assert_eq!(id.to_string(), "01234567-89ab-71b2-83d4-e5f60718293a");
    let mut source = Counting(0);
    let id = Uuid7::from_reading(Ok(u64::MAX), &mut source).unwrap();
    assert_eq!(source.0, 1);
    assert_eq!(id, Uuid7::from_parts(u64::MAX, [1; 10]));
}
