use auth_service::utils::config::AppConfig;
use auth_service::utils::encoding::{hex_decode, hex_encode, hex_string, parse_usize};

#[test]
fn hex_encodes_two_lowercase_digits_per_byte() {
    assert_eq!(hex_encode(&[0x00, 0x0f, 0xa0, 0xff]), b"000fa0ff".to_vec());
    assert_eq!(hex_string(&[0xde, 0xad, 0xbe, 0xef]), "deadbeef");
    assert_eq!(hex_string(&[]), "");
}

#[test]
fn hex_decodes_either_case_and_refuses_the_rest() {
    assert_eq!(hex_decode(b"DEADbeef"), Some(vec![0xde, 0xad, 0xbe, 0xef]));
    assert_eq!(hex_decode(b""), Some(vec![]));
    assert_eq!(hex_decode(b"abc"), None);
    assert_eq!(hex_decode(b"0g"), None);
    let bytes: Vec<u8> = (0..=255).collect();
    assert_eq!(hex_decode(&hex_encode(&bytes)), Some(bytes));
}

#[test]
fn parse_usize_follows_str_parse() {
    for text in ["0", "16", "+7", "007", "", "+", "-1", "1 ", " 1", "12a", "99999999999999999999999"] {
        assert_eq!(parse_usize(text), text.parse::<usize>().ok(), "{:?}", text);
    }
    assert_eq!(parse_usize(&usize::MAX.to_string()), Some(usize::MAX));
}

#[test]
fn check_vars_needs_every_variable() {
    assert!(AppConfig::check_vars(&vec![]));
    assert!(AppConfig::check_vars(&vec![Some("a".to_string()), Some(String::new())]));
    assert!(!AppConfig::check_vars(&vec![Some("a".to_string()), None]));
}
