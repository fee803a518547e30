//! What the verification endpoint receives and answers.

use vstd::prelude::*;

verus! {

/// The outcome of authenticating a request: its roles and whether its JWT was
/// valid.
pub struct VerifyAuthRoles {
    pub roles: Vec<String>,
    pub is_jwt_valid: bool,
}

/// The answer of the verification endpoint.
pub struct VerificationResponse {
    pub message: String,
    pub status: usize,
}

} // verus!
