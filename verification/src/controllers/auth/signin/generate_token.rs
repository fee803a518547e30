//! Issuing tokens for a user.

use vstd::prelude::*;

use crate::utils::jwt::{is_compact_jws, sign_jwt, signed_token, Claims, ClaimsView};

verus! {

/// The claims of a token for the given user and expiry.
pub open spec fn token_claims(sub: Seq<char>, email: Seq<char>, tenant_id: Seq<char>, exp: usize) -> ClaimsView {
    ClaimsView { sub, email, tenant_id, exp }
}

/// An HS384 token, signed with `secret`, carrying the user's id as `sub`, the
/// user's email and tenant, and the expiry `exp` (Unix seconds).
pub fn generate_token(secret: &str, sub: &str, email_user: &str, tenant_id: &str, exp: usize) -> (token: String)
    ensures
        token@ == signed_token(secret@, token_claims(sub@, email_user@, tenant_id@, exp)),
        token@ == signed_token(secret@, ClaimsView { sub: sub@, email: email_user@, tenant_id: tenant_id@, exp }),
        is_compact_jws(token@),
{
    let claims = Claims {
        sub: sub.to_owned(),
        email: email_user.to_owned(),
        tenant_id: tenant_id.to_owned(),
        exp,
    };
    match sign_jwt(secret, claims) {
        Ok(token) => token,
        Err(_) => {
            assert(false);
            String::new()
        },
    }
}

} // verus!
