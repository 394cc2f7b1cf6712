use joaat::{hash_ascii_lowercase, hash_bytes, hash_iter, JoaatHasher};

#[test]
fn test() {
    assert_eq!(hash_bytes(b""), 0);
    assert_eq!(hash_bytes(b"a"), 0xCA2E9442);
    assert_eq!(hash_bytes(b"b"), 0x00DB819B);
    assert_eq!(hash_bytes(b"c"), 0xEEBA5D59);
    assert_eq!(
        hash_bytes(b"The quick brown fox jumps over the lazy dog"),
        0x519E91F5
    );
    assert_eq!(
        hash_bytes(b"The quick brown fox jumps over the lazy dog."),
        0xAE8EF3CB
    );
}

#[test]
fn empty_input_hashes_to_zero() {
    assert_eq!(hash_bytes(&[]), 0);
    assert_eq!(hash_ascii_lowercase(&[]), 0);
    assert_eq!(hash_iter(std::iter::empty::<u8>()), 0);
    assert_eq!(JoaatHasher::default().finalize(), 0);
    assert_eq!(JoaatHasher::with_initial_hash(0).finalize(), 0);
}

#[test]
fn one_more_byte_changes_the_digest() {
    let short = hash_bytes(b"The quick brown fox jumps over the lazy dog");
    let long = hash_bytes(b"The quick brown fox jumps over the lazy dog.");
    assert_ne!(short, long);
}

#[test]
fn known_digests_of_short_words() {
    assert_eq!(hash_bytes(b"ab"), 0x45E61E58);
    assert_eq!(hash_bytes(b"ba"), 0x7D6B8C42);
    assert_eq!(hash_bytes(b"foo"), 0x238678DD);
    assert_eq!(hash_bytes(b"foobar"), 0xF952FDE7);
    assert_eq!(hash_bytes(b"hello world"), 0x3E4A5A57);
    assert_eq!(hash_bytes(b"Hello World"), 0x00BA5A14);
    assert_eq!(hash_bytes(b"HELLO WORLD"), 0x0B1CC760);
}

#[test]
fn zero_bytes_from_the_zero_seed_stay_at_zero() {
    assert_eq!(hash_bytes(&[0]), 0);
    assert_eq!(hash_bytes(&[0, 0]), 0);
    assert_eq!(hash_bytes(&[1]), {
        let mut hasher = JoaatHasher::with_initial_hash(1);
        hasher.update(0);
        hasher.finalize()
    });
}

#[test]
fn every_byte_value_is_absorbed() {
    let all: Vec<u8> = (0..=255).collect();
    assert_eq!(hash_bytes(&all), 0xEF2A46BD);
}

#[test]
fn the_seed_is_the_initial_state() {
    assert_eq!(JoaatHasher::with_initial_hash(1).finalize(), 0x00048009);
    assert_eq!(JoaatHasher::with_initial_hash(0xDEADBEEF).finalize(), 0x6E89B511);
    assert_eq!(JoaatHasher::with_initial_hash(0xFFFFFFFF).finalize(), 0xFFE40008);
    let mut hasher = JoaatHasher::with_initial_hash(0xDEADBEEF);
    hasher.update_many(b"abc");
    assert_eq!(hasher.finalize(), 0x6BC9DC0C);
}

#[test]
fn arithmetic_wraps_around() {
    let mut hasher = JoaatHasher::with_initial_hash(0xFFFFFFFF);
    hasher.update(0xFF);
    assert_eq!(hasher.finalize(), 0xDA5D3473);
}

#[test]
fn update_absorbs_one_byte() {
    let mut hasher = JoaatHasher::default();
    hasher.update(b'a');
    assert_eq!(hasher.finalize(), 0xCA2E9442);
    hasher.update(b'b');
    assert_eq!(hasher.finalize(), 0x45E61E58);
}

#[test]
fn update_many_is_repeated_update() {
    let text = b"The quick brown fox jumps over the lazy dog";
    let mut one_by_one = JoaatHasher::default();
    for byte in text.iter() {
        one_by_one.update(*byte);
    }
    let mut at_once = JoaatHasher::default();
    at_once.update_many(text);
    assert_eq!(one_by_one.finalize(), 0x519E91F5);
    assert_eq!(at_once.finalize(), 0x519E91F5);
}

#[test]
fn update_many_with_nothing_changes_nothing() {
    let mut hasher = JoaatHasher::with_initial_hash(0xDEADBEEF);
    hasher.update_many(&[]);
    assert_eq!(hasher.finalize(), 0x6E89B511);
}

#[test]
fn a_copy_goes_its_own_way() {
    let mut first = JoaatHasher::default();
    first.update(b'a');
    let mut second = first;
    second.update(b'b');
    assert_eq!(first.finalize(), 0xCA2E9442);
    assert_eq!(second.finalize(), 0x45E61E58);
    assert_eq!(first.clone().finalize(), 0xCA2E9442);
}
