use std::collections::BTreeMap;

use chrono::{Duration, Utc};
use hmac::{Hmac, Mac};
use jwt::SignWithKey;
use sha2::Sha384;

use auth_service::controllers::auth::signin::generate_token::generate_token;
use auth_service::utils::jwt::{sign_jwt, verify_jwt, Claims, JwtError};

#[test]
fn test_sign_jwt() {
    let current: chrono::DateTime<Utc> = Utc::now();
    let current_plus_4_hr = current + Duration::hours(4);

    let secret = "my_secret_key";
    let claims = Claims {
        sub: "user_id".to_string(),
        email: "user@example.com".to_string(),
        tenant_id: "tenant_id".to_string(),
        exp: current_plus_4_hr.timestamp() as usize,
    };

    let token = sign_jwt(secret, claims.clone()).expect("Failed to sign JWT");
    assert!(!token.is_empty(), "Token should not be empty");

    let verified_claims = verify_jwt(secret, &token).expect("Failed to verify JWT");
    assert_eq!(verified_claims.sub, claims.sub);
    assert_eq!(verified_claims.email, claims.email);
    assert_eq!(verified_claims.tenant_id, claims.tenant_id);
    assert_eq!(verified_claims.exp, claims.exp);
}

#[test]
fn test_verify_jwt_invalid_token() {
    let secret = "my_secret_key";
    let invalid_token = "invalid.token.string";

    let result = verify_jwt(secret, invalid_token);
    assert!(result.is_err(), "Verification should fail for an invalid token");
}

#[test]
fn generated_token_is_an_hs384_jwt_carrying_the_claims() {
    let token = generate_token("s3cret", "u-1", "a@b.c", "t-9", 1_700_000_000);
    assert_eq!(token.split('.').count(), 3);
    // {"alg":"HS384"} in unpadded base64url.
    assert!(token.starts_with("eyJhbGciOiJIUzM4NCJ9."));
    let claims = verify_jwt("s3cret", &token).unwrap();
    assert_eq!(claims.sub, "u-1");
    assert_eq!(claims.email, "a@b.c");
    assert_eq!(claims.tenant_id, "t-9");
    assert_eq!(claims.exp, 1_700_000_000);
}

#[test]
fn signing_is_deterministic() {
    let a = generate_token("k", "s", "e", "t", 5);
    let b = generate_token("k", "s", "e", "t", 5);
    assert_eq!(a, b);
    assert_ne!(a, generate_token("k", "s", "e", "t", 6));
}

#[test]
fn token_signed_with_another_secret_is_rejected() {
    let token = generate_token("first", "s", "e", "t", 5);
    assert_eq!(verify_jwt("second", &token).err(), Some(JwtError::Rejected));
}

#[test]
fn altered_token_is_rejected() {
    let token = generate_token("k", "s", "e", "t", 5);
    let altered = format!("{}x", token);
    assert_eq!(verify_jwt("k", &altered).err(), Some(JwtError::Rejected));
}

#[test]
fn token_with_claims_of_the_wrong_types_is_refused() {
    let key: Hmac<Sha384> = Hmac::new_from_slice(b"k").unwrap();
    let mut claims: BTreeMap<&str, serde_json::Value> = BTreeMap::new();
    claims.insert("sub", serde_json::Value::from(42));
    claims.insert("email", serde_json::Value::from("e"));
    claims.insert("tenant_id", serde_json::Value::from("t"));
    claims.insert("exp", serde_json::Value::from(1));
    let token = claims.sign_with_key(&key).unwrap();
    assert_eq!(verify_jwt("k", &token).err(), Some(JwtError::InvalidClaims));

    let mut missing: BTreeMap<&str, serde_json::Value> = BTreeMap::new();
    missing.insert("sub", serde_json::Value::from("s"));
    let token = missing.sign_with_key(&key).unwrap();
    assert_eq!(verify_jwt("k", &token).err(), Some(JwtError::InvalidClaims));

    let mut negative: BTreeMap<&str, serde_json::Value> = BTreeMap::new();
    negative.insert("sub", serde_json::Value::from("s"));
    negative.insert("email", serde_json::Value::from("e"));
    negative.insert("tenant_id", serde_json::Value::from("t"));
    negative.insert("exp", serde_json::Value::from(-1));
    let token = negative.sign_with_key(&key).unwrap();
    assert_eq!(verify_jwt("k", &token).err(), Some(JwtError::InvalidClaims));
}

#[test]
fn extra_claims_are_ignored() {
    let key: Hmac<Sha384> = Hmac::new_from_slice(b"k").unwrap();
    let mut claims: BTreeMap<&str, serde_json::Value> = BTreeMap::new();
    claims.insert("sub", serde_json::Value::from("s"));
    claims.insert("email", serde_json::Value::from("e"));
    claims.insert("tenant_id", serde_json::Value::from("t"));
    claims.insert("exp", serde_json::Value::from(9));
    claims.insert("iat", serde_json::Value::from(1));
    let token = claims.sign_with_key(&key).unwrap();
    let verified = verify_jwt("k", &token).unwrap();
    assert_eq!(verified.sub, "s");
    assert_eq!(verified.exp, 9);
}
