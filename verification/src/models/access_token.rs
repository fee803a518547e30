//! Access tokens issued to a user for a client. Expiry times are Unix seconds
//! and the nanoseconds past that second.

use vstd::prelude::*;

verus! {

/// A stored access token.
pub struct AccessToken {
    pub id: String,
    pub user_id: String,
    pub client_id: String,
    pub token: String,
    pub expires_at: i64,
    pub expires_at_nanos: u32,
}

/// An access token row to insert.
pub struct NewAccessToken {
    pub id: String,
    pub user_id: String,
    pub client_id: String,
    pub token: String,
    pub expires_at: i64,
    pub expires_at_nanos: u32,
}

} // verus!
