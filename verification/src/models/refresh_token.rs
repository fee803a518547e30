//! Refresh tokens issued to a user for a client; `token` holds the sealed
//! token. Expiry times are Unix seconds and the nanoseconds past that second.

use vstd::prelude::*;

verus! {

/// A stored refresh token.
pub struct RefreshToken {
    pub id: String,
    pub user_id: String,
    pub client_id: String,
    pub token: String,
    pub expires_at: i64,
    pub expires_at_nanos: u32,
}

/// A refresh token row to insert.
pub struct NewRefreshToken {
    pub id: String,
    pub user_id: String,
    pub client_id: String,
    pub token: String,
    pub expires_at: i64,
    pub expires_at_nanos: u32,
}

} // verus!
