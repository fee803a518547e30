//! HS384 JSON Web Tokens carrying the caller's identity.

use vstd::prelude::*;

use crate::primitives::{hs384_signed_token, hs384_verified_claims, jwt_sign_hs384, jwt_verify_hs384};

verus! {

/// The claims carried by the service's tokens.
#[derive(Clone)]
pub struct Claims {
    pub sub: String,
    pub email: String,
    pub tenant_id: String,
    pub exp: usize,
}

/// The claims as plain values.
pub struct ClaimsView {
    pub sub: Seq<char>,
    pub email: Seq<char>,
    pub tenant_id: Seq<char>,
    pub exp: usize,
}

impl View for Claims {
    type V = ClaimsView;

    open spec fn view(&self) -> ClaimsView {
        ClaimsView { sub: self.sub@, email: self.email@, tenant_id: self.tenant_id@, exp: self.exp }
    }
}

/// What a verified token holds under one claim name.
pub enum ClaimField {
    /// The name is not there.
    Absent,
    /// A JSON string.
    Text(String),
    /// A JSON number that is a non-negative integer.
    Unsigned(u64),
    /// Any other JSON value.
    Other,
}

/// A claim field as a plain value.
pub enum ClaimFieldView {
    Absent,
    Text(Seq<char>),
    Unsigned(u64),
    Other,
}

impl View for ClaimField {
    type V = ClaimFieldView;

    open spec fn view(&self) -> ClaimFieldView {
        match self {
            ClaimField::Absent => ClaimFieldView::Absent,
            ClaimField::Text(s) => ClaimFieldView::Text(s@),
            ClaimField::Unsigned(n) => ClaimFieldView::Unsigned(*n),
            ClaimField::Other => ClaimFieldView::Other,
        }
    }
}

/// The four claim fields of a verified token, before their types are checked.
pub struct RawClaims {
    pub sub: ClaimField,
    pub email: ClaimField,
    pub tenant_id: ClaimField,
    pub exp: ClaimField,
}

/// Raw claims as plain values.
pub struct RawClaimsView {
    pub sub: ClaimFieldView,
    pub email: ClaimFieldView,
    pub tenant_id: ClaimFieldView,
    pub exp: ClaimFieldView,
}

impl View for RawClaims {
    type V = RawClaimsView;

    open spec fn view(&self) -> RawClaimsView {
        RawClaimsView { sub: self.sub@, email: self.email@, tenant_id: self.tenant_id@, exp: self.exp@ }
    }
}

/// Why a token was not accepted.
#[derive(Debug, Clone, Copy, PartialEq, Eq, Structural)]
pub enum JwtError {
    /// Not a well-formed HS384 token signed with this secret.
    Rejected,
    /// Signed, but the claims are not three strings and an expiry.
    InvalidClaims,
}

/// The claims that raw claim fields make: strings for `sub`, `email` and
/// `tenant_id`, and a non-negative integer that fits a `usize` for `exp`.
pub open spec fn claims_from_raw(raw: RawClaimsView) -> Option<ClaimsView> {
    if raw.sub is Text && raw.email is Text && raw.tenant_id is Text && raw.exp is Unsigned
        && raw.exp->Unsigned_0 <= usize::MAX {
        Some(
            ClaimsView {
                sub: raw.sub->Text_0,
                email: raw.email->Text_0,
                tenant_id: raw.tenant_id->Text_0,
                exp: raw.exp->Unsigned_0 as usize,
            },
        )
    } else {
        None
    }
}

/// The view of a token's claims with the given values.
pub open spec fn raw_claims_of(c: ClaimsView) -> RawClaimsView {
    RawClaimsView {
        sub: ClaimFieldView::Text(c.sub),
        email: ClaimFieldView::Text(c.email),
        tenant_id: ClaimFieldView::Text(c.tenant_id),
        exp: ClaimFieldView::Unsigned(c.exp as u64),
    }
}

/// A character of the URL-safe base64 alphabet.
pub open spec fn is_base64url_char(c: char) -> bool {
    ('A' <= c <= 'Z') || ('a' <= c <= 'z') || ('0' <= c <= '9') || c == '-' || c == '_'
}

/// `t` splits at its positions `i` and `j`, the only dots in it, into three
/// non-empty URL-safe base64 segments.
pub open spec fn is_jws_split(t: Seq<char>, i: int, j: int) -> bool {
    &&& 0 < i
    &&& i + 1 < j
    &&& j + 1 < t.len()
    &&& t[i] == '.'
    &&& t[j] == '.'
    &&& forall|k: int| 0 <= k < t.len() && k != i && k != j ==> is_base64url_char(#[trigger] t[k])
}

/// The compact form of a signed JWT: header, claims and signature, each
/// non-empty URL-safe base64 without padding, joined by dots.
pub open spec fn is_compact_jws(t: Seq<char>) -> bool {
    exists|i: int, j: int| #[trigger] is_jws_split(t, i, j)
}

/// The token that signing `c` with `secret` gives.
pub open spec fn signed_token(secret: Seq<char>, c: ClaimsView) -> Seq<char> {
    hs384_signed_token(secret, c.sub, c.email, c.tenant_id, c.exp)
}

/// Types the raw fields of a verified token into `Claims`.
pub fn claims_from_fields(raw: RawClaims) -> (claims: Result<Claims, JwtError>)
    ensures
        claims matches Ok(c) ==> claims_from_raw(raw@) == Some(c@),
        claims is Err <==> claims_from_raw(raw@) is None,
        claims is Err ==> claims == Err::<Claims, JwtError>(JwtError::InvalidClaims),
{
    match (raw.sub, raw.email, raw.tenant_id, raw.exp) {
        (ClaimField::Text(sub), ClaimField::Text(email), ClaimField::Text(tenant_id), ClaimField::Unsigned(exp)) => {
            if exp <= usize::MAX as u64 {
                Ok(Claims { sub, email, tenant_id, exp: exp as usize })
            } else {
                Err(JwtError::InvalidClaims)
            }
        },
        _ => Err(JwtError::InvalidClaims),
    }
}

/// Signs `claims` as an HS384 token under `secret`. Signing always succeeds,
/// and the token is in compact form.
pub fn sign_jwt(secret: &str, claims: Claims) -> (token: Result<String, JwtError>)
    ensures
        token matches Ok(t) && t@ == signed_token(secret@, claims@) && is_compact_jws(t@),
{
    match jwt_sign_hs384(secret, claims.sub.as_str(), claims.email.as_str(), claims.tenant_id.as_str(), claims.exp) {
        Ok(t) => Ok(t),
        Err(_) => Err(JwtError::Rejected),
    }
}

/// Checks an HS384 token against `secret` and reads its claims. A token that
/// `sign_jwt` made with the same secret gives back the claims it was made from.
pub fn verify_jwt(secret: &str, token_str: &str) -> (claims: Result<Claims, JwtError>)
    ensures
        match hs384_verified_claims(secret@, token_str@) {
            None => claims == Err::<Claims, JwtError>(JwtError::Rejected),
            Some(raw) => match claims_from_raw(raw) {
                Some(c) => claims matches Ok(k) && k@ == c,
                None => claims == Err::<Claims, JwtError>(JwtError::InvalidClaims),
            },
        },
        forall|c: ClaimsView|
            #[trigger] signed_token(secret@, c) == token_str@ ==> (claims matches Ok(k) && k@ == c),
{
    match jwt_verify_hs384(secret, token_str) {
        Err(_) => Err(JwtError::Rejected),
        Ok(raw) => {
            let ghost r = raw@;
            let result = claims_from_fields(raw);
            proof {
                assert forall|c: ClaimsView| #[trigger] signed_token(secret@, c) == token_str@ implies (
                result matches Ok(k) && k@ == c) by {
                    assert(r == raw_claims_of(c));
                    assert(claims_from_raw(r) == Some(c));
                }
            }
            result
        },
    }
}

} // verus!
