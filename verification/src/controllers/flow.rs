//! What the request handlers exchange with the code that runs them: the
//! database work they ask for, what came back, and their answers.

use vstd::prelude::*;

use crate::models::access_token::{AccessToken, NewAccessToken};
use crate::models::client::Client;
use crate::models::refresh_token::{NewRefreshToken, RefreshToken};
use crate::models::tenant::{NewTenant, Tenant};
use crate::models::user::{NewUser, User};

verus! {

/// An error answer: an HTTP status and a message.
pub struct ErrorResponse {
    pub status: u16,
    pub message: String,
}

/// An error answer with the given status and message.
pub fn error_response(status: u16, message: &str) -> (e: ErrorResponse)
    ensures
        e.status == status,
        e.message@ == message@,
{
    ErrorResponse { status, message: message.to_owned() }
}

/// A copy of a string.
pub fn copy_string(s: &String) -> (c: String)
    ensures
        c@ == s@,
{
    s.as_str().to_owned()
}

/// What a query for a single row found. `Failed` carries the database
/// error's text.
pub enum Lookup<T> {
    Found(T),
    NotFound,
    Failed(String),
}

/// Database work that a handler asks for.
pub enum DbRequest {
    FindTenant { id: String },
    InsertTenant(NewTenant),
    FindUserByEmail { email: String },
    FindUser { tenant_id: String, user_name: String, email: String },
    InsertUser(NewUser),
    FindClient { id: String },
    FindAccessToken { client_id: String, user_id: String },
    FindRefreshToken { client_id: String, user_id: String },
    UpdateAccessToken { id: String, token: String, expires_at: i64, expires_at_nanos: u32 },
    UpdateRefreshToken { id: String, token: String, expires_at: i64, expires_at_nanos: u32 },
    InsertAccessToken(NewAccessToken),
    InsertRefreshToken(NewRefreshToken),
}

/// What the database answered. `Written` is the outcome of an insert or an
/// update, with the error's text when it failed.
pub enum DbReply {
    Tenant(Lookup<Tenant>),
    User(Lookup<User>),
    Client(Lookup<Client>),
    AccessToken(Lookup<AccessToken>),
    RefreshToken(Lookup<RefreshToken>),
    Written(Result<(), String>),
}

/// The next move of a handler: ask for database work and wait in the given
/// state, answer the request, or give up the way a failed `unwrap` does.
pub enum Step<F, R> {
    Query(F, DbRequest),
    Respond(R),
    Abort(String),
}

} // verus!
