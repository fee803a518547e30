//! The first form of user registration: no existence check, and every outcome
//! is reported in the answer's `action`.

use vstd::prelude::*;
use vstd::string::StringExecFns;
use vstd::utf8::*;

pub use crate::controllers::auth::signup::models::{CreateUserResponse, NewUserCreate};
use crate::controllers::flow::{copy_string, DbReply, DbRequest, Lookup, Step};
use crate::controllers::signin::checks::{lemma_password_check_is_exact, lookup_error_text, not_found_text, password_check};
use crate::models::user::NewUser;
use crate::utils::encoding::{parse_usize, parse_usize_spec};
use crate::utils::generate_random_hash::{generate_random_hash_function, is_random_id};
use crate::utils::generate_short_hash::{decrypt_spec, encrypt, DecryptError};

verus! {

/// Where a registration of this form stands.
pub enum UserSignupStage {
    /// Waiting for the tenant.
    AwaitTenant,
    /// Waiting for the user to be stored.
    AwaitInsert,
}

/// A registration of this form in progress; the configuration values are those
/// of `SIZE_LEN_LIMIT_STR` and `USER_ENCRYPTION_KEY`, which it reads only once
/// the tenant is found.
pub struct UserSignup {
    pub request: NewUserCreate,
    pub size_len_limit: Option<String>,
    pub user_key: Option<String>,
    pub stage: UserSignupStage,
}

/// A step of a registration of this form.
pub type UserSignupStep = Step<UserSignup, CreateUserResponse>;

/// Starts a registration by looking up the tenant.
pub fn create_user(
    new_user_create: NewUserCreate,
    size_len_limit: Option<String>,
    user_key: Option<String>,
) -> (step: UserSignupStep)
    ensures
        step matches Step::Query(next, DbRequest::FindTenant { id }) && id@ == new_user_create.tenant_id@
            && next.stage is AwaitTenant && next.request == new_user_create && next.size_len_limit
            == size_len_limit && next.user_key == user_key,
{
    let tenant_id = copy_string(&new_user_create.tenant_id);
    let flow = UserSignup { request: new_user_create, size_len_limit, user_key, stage: UserSignupStage::AwaitTenant };
    Step::Query(flow, DbRequest::FindTenant { id: tenant_id })
}

impl UserSignup {
    /// The length of the user ids to draw, from `SIZE_LEN_LIMIT_STR`.
    pub open spec fn id_len(&self) -> Option<usize> {
        match self.size_len_limit {
            Some(size) => parse_usize_spec(encode_utf8(size@)),
            None => None,
        }
    }

    /// What a step of this registration is, for the reply it was given.
    pub open spec fn resume_post(&self, reply: DbReply, step: UserSignupStep) -> bool {
        &&& match (self.stage, reply) {
            (UserSignupStage::AwaitTenant, DbReply::Tenant(Lookup::Found(_))) => {
                if self.user_key is Some && self.id_len() is Some && self.id_len()->Some_0 <= 64 {
                    step matches Step::Query(next, DbRequest::InsertUser(row)) && row.tenant_id@
                        == self.request.tenant_id@ && row.user_name@ == self.request.user_name@ && row.email@
                        == self.request.email@ && is_random_id(row.id@, self.id_len()->Some_0 as nat) && password_check(
                        self.request.password@,
                        row.password@,
                        self.user_key->Some_0@,
                    ) == Some(true) && decrypt_spec(encode_utf8(row.password@), self.user_key->Some_0@) == Ok::<
                        Seq<char>,
                        DecryptError,
                    >(self.request.password@) && next.stage is AwaitInsert
                } else {
                    step is Abort
                }
            },
            (UserSignupStage::AwaitTenant, DbReply::Tenant(Lookup::NotFound)) => step matches Step::Respond(r)
                && r.action@ == "Error: Tenant does not exist: "@ + not_found_text(),
            (UserSignupStage::AwaitTenant, DbReply::Tenant(Lookup::Failed(e))) => step matches Step::Respond(r)
                && r.action@ == "Error: Tenant does not exist: "@ + e@,
            (UserSignupStage::AwaitInsert, DbReply::Written(Ok(()))) => step matches Step::Respond(r)
                && r.action@ == "User created successfully!"@,
            (UserSignupStage::AwaitInsert, DbReply::Written(Err(_))) => step matches Step::Respond(r)
                && r.action@ == "Error saving new user"@,
            _ => step is Abort,
        }
    }

    /// Takes the database's answer to the last request. Once the tenant is
    /// found, gives up when `SIZE_LEN_LIMIT_STR` is unset, not a number, or
    /// over 64, or when `USER_ENCRYPTION_KEY` is unset; otherwise stores the
    /// user with a random id and the password sealed under the key.
    pub fn resume(self, reply: DbReply) -> (step: UserSignupStep)
        ensures
            self.resume_post(reply, step),
    {
        let UserSignup { request, size_len_limit, user_key, stage } = self;
        match (stage, reply) {
            (UserSignupStage::AwaitTenant, DbReply::Tenant(Lookup::Found(_))) => {
                let size = match size_len_limit {
                    Some(s) => s,
                    None => return Step::Abort("SIZE_LEN_LIMIT_STR is not set".to_owned()),
                };
                let n = match parse_usize(size.as_str()) {
                    Some(n) => n,
                    None => return Step::Abort("SIZE_LEN_LIMIT_STR is not a number".to_owned()),
                };
                if n > 64 {
                    return Step::Abort("SIZE_LEN_LIMIT_STR is longer than a digest".to_owned());
                }
                let rand_hash = generate_random_hash_function(n);
                let key = match user_key {
                    Some(k) => k,
                    None => return Step::Abort("USER_ENCRYPTION_KEY is not set".to_owned()),
                };
                let password_hash = encrypt(request.password.as_str(), key.as_str(), 16);
                let new_user = NewUser {
                    id: rand_hash,
                    tenant_id: copy_string(&request.tenant_id),
                    user_name: copy_string(&request.user_name),
                    email: copy_string(&request.email),
                    password: password_hash,
                };
                let next = UserSignup {
                    request,
                    size_len_limit: Some(size),
                    user_key: Some(key),
                    stage: UserSignupStage::AwaitInsert,
                };
                Step::Query(next, DbRequest::InsertUser(new_user))
            },
            (UserSignupStage::AwaitTenant, DbReply::Tenant(found)) => {
                let text = lookup_error_text(found);
                let action = "Error: Tenant does not exist: ".to_owned().concat(text.as_str());
                Step::Respond(CreateUserResponse { action })
            },
            (UserSignupStage::AwaitInsert, DbReply::Written(Ok(()))) => {
                Step::Respond(CreateUserResponse { action: "User created successfully!".to_owned() })
            },
            (UserSignupStage::AwaitInsert, DbReply::Written(Err(_))) => {
                Step::Respond(CreateUserResponse { action: "Error saving new user".to_owned() })
            },
            _ => Step::Abort("reply does not answer the request".to_owned()),
        }
    }
}

/// This registration stores the request's user with the request's password
/// sealed under `USER_ENCRYPTION_KEY`: the row it asks to store has the
/// request's tenant, name and email, and its password opens under the key to
/// exactly the request's password, which sign-in then accepts and no other.
pub proof fn lemma_signup_stores_the_password(flow: UserSignup, reply: DbReply, step: UserSignupStep, other: Seq<char>)
    requires
        flow.resume_post(reply, step),
    ensures
        step matches Step::Query(_, DbRequest::InsertUser(row)) ==> {
            &&& flow.user_key is Some
            &&& row.tenant_id@ == flow.request.tenant_id@
            &&& row.user_name@ == flow.request.user_name@
            &&& row.email@ == flow.request.email@
            &&& decrypt_spec(encode_utf8(row.password@), flow.user_key->Some_0@) == Ok::<Seq<char>, DecryptError>(
                flow.request.password@,
            )
            &&& password_check(flow.request.password@, row.password@, flow.user_key->Some_0@) == Some(true)
            &&& other != flow.request.password@ ==> password_check(other, row.password@, flow.user_key->Some_0@)
                == Some(false)
        },
{
    if let Step::Query(_, DbRequest::InsertUser(row)) = step {
        lemma_password_check_is_exact(flow.request.password@, row.password@, flow.user_key->Some_0@);
        lemma_password_check_is_exact(other, row.password@, flow.user_key->Some_0@);
    }
}

} // verus!
