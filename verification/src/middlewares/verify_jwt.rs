//! Authentication of incoming requests by their bearer token.

use vstd::prelude::*;
use vstd::string::StrSliceExecFns;

use crate::controllers::auth::verify::models::VerifyAuthRoles;
use crate::primitives::hs384_verified_claims;
use crate::utils::jwt::{claims_from_raw, signed_token, verify_jwt, ClaimsView};

verus! {

/// The prefix of an `Authorization` header that carries a bearer token.
pub open spec fn bearer_prefix() -> Seq<char> {
    seq!['B', 'e', 'a', 'r', 'e', 'r', ' ']
}

/// The token of a bearer `Authorization` header, if it is one.
pub open spec fn bearer_token(header: Seq<char>) -> Option<Seq<char>> {
    if header.len() >= 7 && header.take(7) == bearer_prefix() {
        Some(header.skip(7))
    } else {
        None
    }
}

/// `verify_jwt` accepts `token` under `secret`.
pub open spec fn jwt_accepted(secret: Seq<char>, token: Seq<char>) -> bool {
    hs384_verified_claims(secret, token) matches Some(raw) && claims_from_raw(raw) is Some
}

fn bearer_token_of(header: &str) -> (token: Option<&str>)
    ensures
        token matches Some(t) ==> bearer_token(header@) == Some(t@),
        token is None ==> bearer_token(header@) is None,
{
    let len = header.unicode_len();
    if len < 7 {
        return None;
    }
    let expected = ['B', 'e', 'a', 'r', 'e', 'r', ' '];
    let mut i: usize = 0;
    while i < 7
        invariant
            i <= 7,
            len == header@.len(),
            len >= 7,
            expected@ == bearer_prefix(),
            forall|j: int| 0 <= j < i ==> header@[j] == bearer_prefix()[j],
        decreases 7 - i,
    {
        if header.get_char(i) != expected[i] {
            assert(header@.take(7)[i as int] != bearer_prefix()[i as int]);
            return None;
        }
        i = i + 1;
    }
    assert(header@.take(7) =~= bearer_prefix());
    Some(header.substring_char(7, len))
}

/// Authenticates a request from its `Authorization` header and the signing
/// secret: 500 when the secret is not configured, 401 when the header is not
/// `Bearer <token>` or `verify_jwt` refuses the token, and otherwise a valid
/// caller with no roles. A token signed with the same secret is accepted.
pub fn authenticate(authorization: Option<&str>, secret: Option<&str>) -> (outcome: Result<VerifyAuthRoles, u16>)
    ensures
        secret is None ==> outcome == Err::<VerifyAuthRoles, u16>(500),
        secret matches Some(s) ==> match authorization {
            Some(h) => match bearer_token(h@) {
                Some(t) => if jwt_accepted(s@, t) {
                    outcome matches Ok(r) && r.is_jwt_valid && r.roles@.len() == 0
                } else {
                    outcome == Err::<VerifyAuthRoles, u16>(401)
                },
                None => outcome == Err::<VerifyAuthRoles, u16>(401),
            },
            None => outcome == Err::<VerifyAuthRoles, u16>(401),
        },
        (secret is Some && authorization is Some && bearer_token(authorization->Some_0@) is Some) ==> (forall|
            c: ClaimsView,
        | #[trigger] signed_token(secret->Some_0@, c) == bearer_token(authorization->Some_0@)->Some_0 ==> outcome is Ok),
{
    let secret = match secret {
        None => return Err(500),
        Some(s) => s,
    };
    let header = match authorization {
        None => return Err(401),
        Some(h) => h,
    };
    match bearer_token_of(header) {
        None => Err(401),
        Some(token) => match verify_jwt(secret, token) {
            Ok(_) => Ok(VerifyAuthRoles { roles: Vec::new(), is_jwt_valid: true }),
            Err(_) => Err(401),
        },
    }
}

} // verus!
