use pokedex::{generate_hash, hex_encode};

#[test]
fn hash_of_forty_two() {
    assert_eq!(
        generate_hash(42),
        "73475cb40a568e8da8a045ced110137e159f890ac4da883b6b17dc651b3a8049"
    );
}

#[test]
fn hash_is_the_same_every_time() {
    let first = generate_hash(42);
    for _ in 0..50 {
        assert_eq!(generate_hash(42), first);
    }
}

#[test]
fn hash_of_zero_and_one() {
    assert_eq!(
        generate_hash(0),
        "5feceb66ffc86f38d952786c6d696c79c2dbc239dd4e91b46729d73a27fb57e9"
    );
    assert_eq!(
        generate_hash(1),
        "6b86b273ff34fce19d6b804eff5a3f5747ada4eaa22f1d49c01e52ddb7875b4b"
    );
}

#[test]
fn hash_of_the_largest_counter() {
    assert_eq!(
        generate_hash(u64::MAX),
        "2cdb26265b4dc65e3b44d694f121fd6de99b9e4b8ae7f08d84bfa9537635ae43"
    );
}

#[test]
fn hash_has_sixty_four_lowercase_hex_digits() {
    for n in [0u64, 7, 10, 99, 100, 12345, 1 << 40] {
        let hash = generate_hash(n);
        assert_eq!(hash.len(), 64);
        assert!(hash.chars().all(|c| c.is_ascii_digit() || ('a'..='f').contains(&c)));
    }
}

#[test]
fn hash_differs_from_its_input() {
    assert_ne!(generate_hash(42), "42");
}

#[test]
fn hex_of_a_few_bytes() {
    assert_eq!(hex_encode(&[]), "");
    assert_eq!(hex_encode(&[0x00]), "00");
    assert_eq!(hex_encode(&[0x0a, 0x14, 0x1e]), "0a141e");
    assert_eq!(hex_encode(&[0xff, 0x10, 0x01, 0xab]), "ff1001ab");
}

#[test]
fn hex_of_every_byte() {
    for b in 0u8..=255 {
        assert_eq!(hex_encode(&[b]), format!("{:02x}", b));
    }
}
