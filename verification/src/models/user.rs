//! A user of a tenant.

use vstd::prelude::*;

verus! {

/// A stored user. `password` is the sealed form of the user's password.
pub struct User {
    pub id: String,
    pub tenant_id: String,
    pub user_name: String,
    pub email: String,
    pub password: String,
}

/// A user row to insert.
pub struct NewUser {
    pub id: String,
    pub tenant_id: String,
    pub user_name: String,
    pub email: String,
    pub password: String,
}

} // verus!
