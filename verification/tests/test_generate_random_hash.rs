use auth_service::utils::generate_random_hash::{generate_random_hash_function, short_id_from_seed};

#[test]
fn test_generate_random_hash() {
    let hash = generate_random_hash_function(64);
    assert_eq!(hash.len(), 64);
}

#[test]
fn short_id_is_a_prefix_of_the_hex_digest() {
    // SHA-256("abc") = ba7816bf8f01cfea414140de5dae2223b00361a396177a9cb410ff61f20015ad
    assert_eq!(short_id_from_seed(b"abc", 16), "ba7816bf8f01cfea");
    assert_eq!(
        short_id_from_seed(b"abc", 64),
        "ba7816bf8f01cfea414140de5dae2223b00361a396177a9cb410ff61f20015ad"
    );
    assert_eq!(short_id_from_seed(b"abc", 0), "");
}

#[test]
fn random_ids_are_lowercase_hex_of_the_asked_length() {
    for len in [0usize, 1, 16, 63] {
        let id = generate_random_hash_function(len);
        assert_eq!(id.len(), len);
        assert!(id.bytes().all(|b| b.is_ascii_digit() || (b'a'..=b'f').contains(&b)));
    }
    assert_ne!(generate_random_hash_function(32), generate_random_hash_function(32));
}
