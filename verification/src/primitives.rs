//! Calls into the hashing, MAC and randomness crates.
//!
//! Every function here is trusted: Verus reads its contract and not its body.
//! The doc comment of each says what the contract claims of the crate.

use std::collections::BTreeMap;

use hmac::Mac;
use jwt::SignWithKey;
use jwt::VerifyWithKey;
use rand::Rng;
use rand::RngCore;
use sha2::Digest;
use vstd::prelude::*;
use vstd::utf8::*;

use crate::utils::jwt::{is_compact_jws, ClaimField, ClaimFieldView, RawClaims, RawClaimsView};

verus! {

/// The SHA-256 digest of `data`, as computed by the `sha2` crate.
pub uninterp spec fn sha256(data: Seq<u8>) -> Seq<u8>;

/// HMAC-SHA-256 of `msg` under `key`, as computed by the `hmac` crate over `sha2::Sha256`.
pub uninterp spec fn hmac_sha256(key: Seq<u8>, msg: Seq<u8>) -> Seq<u8>;

/// Calls `sha2::Sha256::digest`. Claimed: the result is the digest of `data`
/// (a function of `data` alone) and has the 32 bytes of SHA-256's output size.
#[verifier::external_body]
pub(crate) fn sha256_digest(data: &[u8]) -> (digest: Vec<u8>)
    ensures
        digest@ == sha256(data@),
        digest@.len() == 32,
{
    sha2::Sha256::digest(data).to_vec()
}

/// Calls `hmac::Hmac::<sha2::Sha256>::new_from_slice`, `update` and `finalize`.
/// Claimed: the tag is a function of key and message alone, and is 32 bytes
/// long. `new_from_slice` accepts keys of every length for HMAC, so the call
/// does not fail.
#[verifier::external_body]
pub(crate) fn hmac_sha256_tag(key: &[u8], msg: &[u8]) -> (tag: Vec<u8>)
    ensures
        tag@ == hmac_sha256(key@, msg@),
        tag@.len() == 32,
{
    let mut mac = hmac::Hmac::<sha2::Sha256>::new_from_slice(key).expect("HMAC takes any key length");
    mac.update(msg);
    mac.finalize().into_bytes().to_vec()
}

/// ASCII letters and digits, the alphabet of `rand::distributions::Alphanumeric`.
pub open spec fn is_alphanumeric_byte(b: u8) -> bool {
    (48 <= b <= 57) || (65 <= b <= 90) || (97 <= b <= 122)
}

/// Draws `len` samples of `rand::distributions::Alphanumeric` from
/// `rand::thread_rng()`. Claimed: exactly `len` bytes come back, each an ASCII
/// letter or digit; nothing is claimed of which.
#[verifier::external_body]
pub(crate) fn random_alphanumeric(len: usize) -> (bytes: Vec<u8>)
    ensures
        bytes@.len() == len,
        forall|i: int| 0 <= i < len ==> is_alphanumeric_byte(#[trigger] bytes@[i]),
{
    rand::thread_rng().sample_iter(&rand::distributions::Alphanumeric).take(len).collect()
}

/// Fills `len` bytes from `rand::thread_rng()` with `RngCore::fill_bytes`.
/// Claimed: exactly `len` bytes come back; nothing is claimed of their values.
#[verifier::external_body]
pub(crate) fn random_bytes(len: usize) -> (bytes: Vec<u8>)
    ensures
        bytes@.len() == len,
{
    let mut bytes = vec![0u8; len];
    rand::thread_rng().fill_bytes(&mut bytes);
    bytes
}

/// Calls `String::from_utf8`. Claimed, as its documentation says: it succeeds
/// exactly when the bytes are valid UTF-8, and the string it gives holds those
/// bytes.
#[verifier::external_body]
pub(crate) fn string_from_utf8(bytes: Vec<u8>) -> (s: Option<String>)
    ensures
        s is Some <==> valid_utf8(bytes@),
        s matches Some(t) ==> encode_utf8(t@) == bytes@,
{
    String::from_utf8(bytes).ok()
}

/// The error type of the `jwt` crate.
#[verifier::external_type_specification]
#[verifier::external_body]
pub struct ExJwtError(jwt::Error);

/// The HS384 token that `jwt` makes for the claims `sub`, `email`,
/// `tenant_id` and `exp`, in that order, signed with `secret`.
pub uninterp spec fn hs384_signed_token(
    secret: Seq<char>,
    sub: Seq<char>,
    email: Seq<char>,
    tenant_id: Seq<char>,
    exp: usize,
) -> Seq<char>;

/// The claim fields that `jwt` reads from `token` once it has checked its
/// HS384 signature against `secret`; `None` where it refuses the token.
pub uninterp spec fn hs384_verified_claims(secret: Seq<char>, token: Seq<char>) -> Option<RawClaimsView>;

/// Calls `jwt::Token::new(..).sign_with_key` with an `Hmac<Sha384>` key made
/// from the secret's bytes, a header naming HS384, and a JSON object holding
/// `sub`, `email`, `tenant_id` and `exp` in that order. Claimed: the token is a
/// function of these values alone, and signing succeeds: `Hmac::new_from_slice`
/// accepts keys of any length, serialising a JSON object with string keys
/// cannot fail, and HMAC signing returns `Ok`.
#[verifier::external_body]
pub(crate) fn jwt_sign_hs384(secret: &str, sub: &str, email: &str, tenant_id: &str, exp: usize)
    -> (token: Result<String, jwt::Error>)
    ensures
        token is Ok,
        token matches Ok(t) ==> t@ == hs384_signed_token(secret@, sub@, email@, tenant_id@, exp),
        token matches Ok(t) ==> is_compact_jws(t@),
{
    let key: hmac::Hmac<sha2::Sha384> = hmac::Hmac::new_from_slice(secret.as_bytes())?;
    let header = jwt::Header { algorithm: jwt::AlgorithmType::Hs384, ..Default::default() };
    let mut claims = serde_json::Map::new();
    claims.insert("sub".to_owned(), sub.into());
    claims.insert("email".to_owned(), email.into());
    claims.insert("tenant_id".to_owned(), tenant_id.into());
    claims.insert("exp".to_owned(), exp.into());
    Ok(jwt::Token::new(header, claims).sign_with_key(&key)?.as_str().to_owned())
}

/// Calls `VerifyWithKey::verify_with_key` on the token string with an
/// `Hmac<Sha384>` key made from the secret's bytes, reading the claims as a
/// `BTreeMap<String, serde_json::Value>`, and reports the JSON kind of the
/// values under `sub`, `email`, `tenant_id` and `exp`. Claimed: the outcome is
/// a function of secret and token alone; and a token that `jwt_sign_hs384`
/// made with the same secret verifies and gives back the strings and the
/// number it was made from (HMAC verification with the signing key succeeds,
/// and `serde_json` reads back the strings and integers it wrote).
#[verifier::external_body]
pub(crate) fn jwt_verify_hs384(secret: &str, token: &str) -> (claims: Result<RawClaims, jwt::Error>)
    ensures
        claims matches Ok(c) ==> hs384_verified_claims(secret@, token@) == Some(c@),
        claims is Err ==> hs384_verified_claims(secret@, token@) is None,
        forall|sub: Seq<char>, email: Seq<char>, tenant_id: Seq<char>, exp: usize|
            #[trigger] hs384_signed_token(secret@, sub, email, tenant_id, exp) == token@ ==> (
            claims is Ok && claims->Ok_0@ == (RawClaimsView {
                sub: ClaimFieldView::Text(sub),
                email: ClaimFieldView::Text(email),
                tenant_id: ClaimFieldView::Text(tenant_id),
                exp: ClaimFieldView::Unsigned(exp as u64),
            })),
{
    let key: hmac::Hmac<sha2::Sha384> = hmac::Hmac::new_from_slice(secret.as_bytes())?;
    let map: BTreeMap<String, serde_json::Value> = token.verify_with_key(&key)?;
    let field = |name: &str| match map.get(name) {
        Some(serde_json::Value::String(s)) => ClaimField::Text(s.clone()),
        Some(serde_json::Value::Number(n)) => n.as_u64().map_or(ClaimField::Other, ClaimField::Unsigned),
        Some(_) => ClaimField::Other,
        None => ClaimField::Absent,
    };
    Ok(RawClaims { sub: field("sub"), email: field("email"), tenant_id: field("tenant_id"), exp: field("exp") })
}

} // verus!
