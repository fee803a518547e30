//! Authorization codes handed to a client for a user. Times are Unix seconds.

use vstd::prelude::*;

verus! {

/// A stored authorization code.
pub struct AuthorizationCode {
    pub id: String,
    pub client_id: String,
    pub user_id: String,
    pub code: String,
    pub expires_at: i64,
    pub created_at: i64,
}

/// An authorization code row to insert.
pub struct NewAuthorizationCode {
    pub id: String,
    pub client_id: String,
    pub user_id: String,
    pub code: String,
}

} // verus!
