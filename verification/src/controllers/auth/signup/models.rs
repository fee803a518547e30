//! What the user registration endpoint receives and answers.

use vstd::prelude::*;

verus! {

/// A user registration request.
pub struct NewUserCreate {
    pub tenant_id: String,
    pub user_name: String,
    pub email: String,
    pub password: String,
}

/// The answer of user registration.
pub struct CreateUserResponse {
    pub action: String,
}

} // verus!
