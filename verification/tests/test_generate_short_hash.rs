use auth_service::utils::encoding::hex_string;
use auth_service::utils::generate_short_hash::{
    decrypt, encrypt, encrypt_with_nonce, keystream_xor, seal, DecryptError,
};

#[test]
fn test_encrypt_decrypt() {
    let key = "12345678901234567890123456789012";
    let data = "Hello, World!";
    let encrypted_data = encrypt(data, key, 16);
    let decrypted_data = decrypt(&encrypted_data, key).unwrap();
    assert_eq!(data, decrypted_data);
}

#[test]
#[should_panic(expected = "decryption failed")]
fn test_encrypt_decrypt_with_different_key() {
    let key = "12345678901234567890123456789012";
    let data = "Hello, World!";
    let encrypted_data = encrypt(data, key, 16);
    let key = "12345678901234567890123456789013";
    let decrypted_data = decrypt(&encrypted_data, key).expect("decryption failed");
    assert_ne!(data, decrypted_data);
}

#[test]
fn sealed_text_is_lowercase_hex_of_the_frame() {
    let sealed = encrypt("secret", "key", 16);
    // 8 length bytes, 16 nonce bytes, 6 ciphertext bytes, 32 tag bytes.
    assert_eq!(sealed.len(), 2 * (8 + 16 + 6 + 32));
    assert!(sealed.bytes().all(|b| b.is_ascii_digit() || (b'a'..=b'f').contains(&b)));
    assert!(sealed.starts_with("0000000000000010"));
}

#[test]
fn sealing_with_the_same_nonce_is_deterministic() {
    let nonce = [7u8; 16];
    let a = encrypt_with_nonce("tenant-1", "k", &nonce);
    let b = encrypt_with_nonce("tenant-1", "k", &nonce);
    assert_eq!(a, b);
    let c = encrypt_with_nonce("tenant-2", "k", &nonce);
    assert_ne!(a, c);
    assert_eq!(decrypt(&c, "k").unwrap(), "tenant-2");
}

#[test]
fn fresh_nonces_give_different_texts() {
    let a = encrypt("same", "k", 16);
    let b = encrypt("same", "k", 16);
    assert_ne!(a, b);
    assert_eq!(decrypt(&a, "k").unwrap(), "same");
    assert_eq!(decrypt(&b, "k").unwrap(), "same");
}

#[test]
fn empty_and_multibyte_plaintexts_round_trip() {
    for data in ["", "é", "日本語のパスワード", "a\u{1F600}b"] {
        let sealed = encrypt(data, "ключ", 0);
        assert_eq!(decrypt(&sealed, "ключ").unwrap(), data);
    }
    let long = "x".repeat(1000);
    assert_eq!(decrypt(&encrypt(&long, "k", 3), "k").unwrap(), long);
}

#[test]
fn keystream_changes_the_data_and_undoes_itself() {
    let data = b"attack at dawn, attack at dusk, attack at noon";
    let once = keystream_xor(b"key", b"nonce", data);
    assert_eq!(once.len(), data.len());
    assert_ne!(&once[..], &data[..]);
    let twice = keystream_xor(b"key", b"nonce", &once);
    assert_eq!(&twice[..], &data[..]);
}

#[test]
fn decrypt_rejects_text_that_is_not_hex() {
    assert_eq!(decrypt("zz", "k"), Err(DecryptError::NotHex));
    assert_eq!(decrypt("abc", "k"), Err(DecryptError::NotHex));
}

#[test]
fn decrypt_rejects_short_or_inconsistent_frames() {
    assert_eq!(decrypt("", "k"), Err(DecryptError::Malformed));
    assert_eq!(decrypt("00", "k"), Err(DecryptError::Malformed));
    // A frame that claims a nonce longer than it holds.
    let mut frame = vec![0u8; 40];
    frame[7] = 1;
    assert_eq!(decrypt(&hex_string(&frame), "k"), Err(DecryptError::Malformed));
}

#[test]
fn decrypt_rejects_altered_text() {
    let sealed = encrypt("payload", "k", 16);
    let mut bytes = sealed.into_bytes();
    let i = 2 * (8 + 16);
    bytes[i] = if bytes[i] == b'0' { b'1' } else { b'0' };
    let altered = String::from_utf8(bytes).unwrap();
    assert_eq!(decrypt(&altered, "k"), Err(DecryptError::Tampered));
}

#[test]
fn decrypt_rejects_plaintext_that_is_not_utf8() {
    let frame = seal(b"k", b"nonce", &[0xff, 0xfe]);
    assert_eq!(decrypt(&hex_string(&frame), "k"), Err(DecryptError::NotUtf8));
}
