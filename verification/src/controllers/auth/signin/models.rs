//! What the sign-in endpoint receives and answers.

use vstd::prelude::*;

verus! {

/// A sign-in request.
pub struct SignInUser {
    pub email: String,
    pub password: String,
    pub client_id: String,
}

/// A successful sign-in: the action taken and the access token.
pub struct SignInResponse {
    pub action: String,
    pub access_token: String,
}

/// Whether an existing access token was renewed, and the renewed token.
pub struct CheckTokenResponse {
    pub success: bool,
    pub token: String,
}

} // verus!
