//! Registering a user under a tenant. The password is stored sealed under the
//! user encryption key, so that sign-in can check it.

use vstd::prelude::*;
use vstd::utf8::*;

use crate::controllers::auth::signup::models::{CreateUserResponse, NewUserCreate};
use crate::controllers::flow::{copy_string, error_response, DbReply, DbRequest, ErrorResponse, Lookup, Step};
use crate::controllers::signin::checks::{lemma_password_check_is_exact, password_check};
use crate::models::user::NewUser;
use crate::utils::config::AppConfig;
use crate::utils::encoding::{parse_usize, parse_usize_spec};
use crate::utils::generate_random_hash::{generate_random_hash_function, is_random_id};
use crate::utils::generate_short_hash::{decrypt_spec, encrypt, DecryptError};

verus! {

/// Where a user registration stands.
pub enum CreateUserStage {
    /// Waiting for the tenant.
    AwaitTenant,
    /// Waiting for a user with the same tenant, name and email; the row to
    /// store if there is none.
    AwaitUser { new_user: NewUser },
    /// Waiting for the user to be stored.
    AwaitInsert,
}

/// A user registration in progress.
pub struct CreateUser {
    pub request: NewUserCreate,
    pub id_size: String,
    pub user_key: String,
    pub stage: CreateUserStage,
}

/// A step of a user registration.
pub type CreateUserStep = Step<CreateUser, Result<CreateUserResponse, ErrorResponse>>;

/// Starts registering a user: 500 when `ID_SIZE` or `USER_ENCRYPTION_KEY`
/// is not set, and otherwise a lookup of the tenant.
pub fn create_user(
    new_user_create: NewUserCreate,
    id_size: Option<String>,
    user_key: Option<String>,
) -> (step: CreateUserStep)
    ensures
        (id_size is None || user_key is None) ==> (step matches Step::Respond(Err(e)) && e.status
            == 500 && e.message@ == "Required environment variable(s) are not set"@),
        (id_size is Some && user_key is Some) ==> (step matches Step::Query(next, DbRequest::FindTenant { id })
            && id@ == new_user_create.tenant_id@ && next.stage is AwaitTenant && next.wf()
            && next.request == new_user_create && next.id_size@ == id_size->Some_0@
            && next.user_key@ == user_key->Some_0@),
{
    let mut lookups: Vec<Option<String>> = Vec::new();
    lookups.push(id_size);
    lookups.push(user_key);
    if !AppConfig::check_vars(&lookups) {
        assert(lookups@[0] is None || lookups@[1] is None);
        return Step::Respond(Err(error_response(500, "Required environment variable(s) are not set")));
    }
    let user_key = lookups.pop().unwrap().unwrap();
    let id_size = lookups.pop().unwrap().unwrap();
    let tenant_id = copy_string(&new_user_create.tenant_id);
    let flow = CreateUser { request: new_user_create, id_size, user_key, stage: CreateUserStage::AwaitTenant };
    Step::Query(flow, DbRequest::FindTenant { id: tenant_id })
}

impl CreateUser {
    /// The row a registration stores is the request's user, with a password
    /// that sign-in accepts for the request's password.
    pub open spec fn is_row_for(&self, row: NewUser) -> bool {
        &&& row.tenant_id@ == self.request.tenant_id@
        &&& row.user_name@ == self.request.user_name@
        &&& row.email@ == self.request.email@
        &&& password_check(self.request.password@, row.password@, self.user_key@) == Some(true)
        &&& decrypt_spec(encode_utf8(row.password@), self.user_key@) == Ok::<Seq<char>, DecryptError>(
            self.request.password@,
        )
    }

    /// Same request and configuration as `other`.
    pub open spec fn same_context(&self, other: &CreateUser) -> bool {
        &&& self.request == other.request
        &&& self.id_size@ == other.id_size@
        &&& self.user_key@ == other.user_key@
    }

    /// A row held for storing is one the registration made for the request.
    pub open spec fn wf(&self) -> bool {
        self.stage matches CreateUserStage::AwaitUser { new_user } ==> self.is_row_for(new_user)
    }

    /// What a step of the registration is, for the reply it was given: the
    /// next request and stage, or the answer.
    pub open spec fn resume_post(&self, reply: DbReply, step: CreateUserStep) -> bool {
        &&& step matches Step::Query(next, _) ==> next.same_context(self) && next.wf()
        &&& step matches Step::Query(_, DbRequest::InsertUser(row)) ==> self.is_row_for(row)
        &&& match (self.stage, reply) {
            (CreateUserStage::AwaitTenant, DbReply::Tenant(Lookup::Found(_))) => match parse_usize_spec(
                encode_utf8(self.id_size@),
            ) {
                Some(n) if n <= 64 => step matches Step::Query(next, DbRequest::FindUser { tenant_id, user_name, email })
                    && tenant_id@ == self.request.tenant_id@ && user_name@ == self.request.user_name@
                    && email@ == self.request.email@ && (next.stage matches CreateUserStage::AwaitUser { new_user }
                    && is_random_id(new_user.id@, n as nat)),
                _ => step is Abort,
            },
            (CreateUserStage::AwaitTenant, DbReply::Tenant(_)) => step matches Step::Respond(Err(e))
                && e.status == 404 && e.message@ == "Error: Tenant does not exist"@,
            (CreateUserStage::AwaitUser { .. }, DbReply::User(Lookup::Found(_))) => step matches Step::Respond(Ok(r))
                && r.action@ == "User already exists!"@,
            (CreateUserStage::AwaitUser { new_user }, DbReply::User(Lookup::NotFound)) => step matches Step::Query(
                next,
                DbRequest::InsertUser(row),
            ) && row == new_user && next.stage is AwaitInsert,
            (CreateUserStage::AwaitUser { .. }, DbReply::User(Lookup::Failed(_))) => step matches Step::Respond(Err(e))
                && e.status == 500 && e.message@ == "Error checking user existence"@,
            (CreateUserStage::AwaitInsert, DbReply::Written(Ok(()))) => step matches Step::Respond(Ok(r))
                && r.action@ == "User created successfully!"@,
            (CreateUserStage::AwaitInsert, DbReply::Written(Err(_))) => step matches Step::Respond(Err(e))
                && e.status == 500 && e.message@ == "Error saving new user"@,
            _ => step is Abort,
        }
    }

    /// Takes the database's answer to the last request.
    pub fn resume(self, reply: DbReply) -> (step: CreateUserStep)
        requires
            self.wf(),
        ensures
            self.resume_post(reply, step),
    {
        let CreateUser { request, id_size, user_key, stage } = self;
        match (stage, reply) {
            (CreateUserStage::AwaitTenant, DbReply::Tenant(Lookup::Found(_))) => {
                let size = match parse_usize(id_size.as_str()) {
                    Some(n) => n,
                    None => return Step::Abort("ID_SIZE is not a number".to_owned()),
                };
                if size > 64 {
                    return Step::Abort("ID_SIZE is longer than a digest".to_owned());
                }
                let rand_hash = generate_random_hash_function(size);
                let password_hash = encrypt(request.password.as_str(), user_key.as_str(), 16);
                let new_user = NewUser {
                    id: rand_hash,
                    tenant_id: copy_string(&request.tenant_id),
                    user_name: copy_string(&request.user_name),
                    email: copy_string(&request.email),
                    password: password_hash,
                };
                let query = DbRequest::FindUser {
                    tenant_id: copy_string(&request.tenant_id),
                    user_name: copy_string(&request.user_name),
                    email: copy_string(&request.email),
                };
                let next = CreateUser { request, id_size, user_key, stage: CreateUserStage::AwaitUser { new_user } };
                Step::Query(next, query)
            },
            (CreateUserStage::AwaitTenant, DbReply::Tenant(_)) => {
                Step::Respond(Err(error_response(404, "Error: Tenant does not exist")))
            },
            (CreateUserStage::AwaitUser { .. }, DbReply::User(Lookup::Found(_))) => {
                Step::Respond(Ok(CreateUserResponse { action: "User already exists!".to_owned() }))
            },
            (CreateUserStage::AwaitUser { new_user }, DbReply::User(Lookup::NotFound)) => {
                let next = CreateUser { request, id_size, user_key, stage: CreateUserStage::AwaitInsert };
                Step::Query(next, DbRequest::InsertUser(new_user))
            },
            (CreateUserStage::AwaitUser { .. }, DbReply::User(Lookup::Failed(_))) => {
                Step::Respond(Err(error_response(500, "Error checking user existence")))
            },
            (CreateUserStage::AwaitInsert, DbReply::Written(Ok(()))) => {
                Step::Respond(Ok(CreateUserResponse { action: "User created successfully!".to_owned() }))
            },
            (CreateUserStage::AwaitInsert, DbReply::Written(Err(_))) => {
                Step::Respond(Err(error_response(500, "Error saving new user")))
            },
            _ => Step::Abort("reply does not answer the request".to_owned()),
        }
    }
}

/// The tenant, name and email that identify a user in the user table.
pub type UserKey = (Seq<char>, Seq<char>, Seq<char>);

/// The tenant, name and email of a stored row.
pub open spec fn row_key(row: NewUser) -> UserKey {
    (row.tenant_id@, row.user_name@, row.email@)
}

impl CreateUser {
    /// The tenant, name and email that the registration asks for.
    pub open spec fn request_key(&self) -> UserKey {
        (self.request.tenant_id@, self.request.user_name@, self.request.email@)
    }
}

/// `reply` is what a user table whose rows have the keys `users` answers to
/// the lookup of `key`: the row when one has that key, and nothing otherwise.
pub open spec fn user_lookup_agrees(users: Seq<UserKey>, key: UserKey, reply: DbReply) -> bool {
    match reply {
        DbReply::User(Lookup::Found(u)) => users.contains(key) && (u.tenant_id@, u.user_name@, u.email@) == key,
        DbReply::User(Lookup::NotFound) => !users.contains(key),
        _ => false,
    }
}

/// Registration keeps users unique by tenant, name and email: it asks to
/// store a user only right after the lookup of the request's tenant, name and
/// email found nobody, and the row it stores has that tenant, name and email.
/// So when that lookup was answered by the table, storing the row leaves no
/// two rows with the same key.
pub proof fn lemma_registration_keeps_users_unique(
    flow: CreateUser,
    reply: DbReply,
    step: CreateUserStep,
    users: Seq<UserKey>,
)
    requires
        flow.wf(),
        flow.resume_post(reply, step),
        users.no_duplicates(),
        flow.stage is AwaitUser ==> user_lookup_agrees(users, flow.request_key(), reply),
    ensures
        step matches Step::Query(_, DbRequest::InsertUser(row)) ==> row_key(row) == flow.request_key()
            && users.push(row_key(row)).no_duplicates(),
{
    if let Step::Query(_, DbRequest::InsertUser(row)) = step {
        assert(flow.stage is AwaitUser);
        assert(reply matches DbReply::User(Lookup::NotFound));
        assert(row_key(row) == flow.request_key());
        let pushed = users.push(row_key(row));
        assert forall|i: int, j: int| 0 <= i < pushed.len() && 0 <= j < pushed.len() && i != j implies pushed[i]
            != pushed[j] by {
            if i < users.len() && j < users.len() {
                assert(pushed[i] == users[i] && pushed[j] == users[j]);
            } else if i == users.len() {
                assert(pushed[j] == users[j]);
            } else {
                assert(pushed[i] == users[i]);
            }
        }
    }
}

/// Registering the same user again answers "User already exists!" and
/// stores nothing: once the table holds the row that the first registration
/// stored, the second registration's lookup of the same tenant, name and
/// email finds it.
pub proof fn lemma_second_registration_finds_the_user(
    first: CreateUser,
    row: NewUser,
    second: CreateUser,
    reply: DbReply,
    step: CreateUserStep,
    users: Seq<UserKey>,
)
    requires
        first.is_row_for(row),
        users.contains(row_key(row)),
        second.request == first.request,
        second.stage is AwaitUser,
        user_lookup_agrees(users, second.request_key(), reply),
        second.resume_post(reply, step),
    ensures
        step matches Step::Respond(Ok(r)) && r.action@ == "User already exists!"@,
{
    assert(row_key(row) == second.request_key());
}

/// Registration stores the request's user with the request's password sealed
/// under the user encryption key: the row it asks to store has the request's
/// tenant, name and email, and its password opens under the key to exactly
/// the request's password, which sign-in then accepts and no other.
pub proof fn lemma_registration_stores_the_password(
    flow: CreateUser,
    reply: DbReply,
    step: CreateUserStep,
    other: Seq<char>,
)
    requires
        flow.wf(),
        flow.resume_post(reply, step),
    ensures
        step matches Step::Query(_, DbRequest::InsertUser(row)) ==> {
            &&& row.tenant_id@ == flow.request.tenant_id@
            &&& row.user_name@ == flow.request.user_name@
            &&& row.email@ == flow.request.email@
            &&& decrypt_spec(encode_utf8(row.password@), flow.user_key@) == Ok::<Seq<char>, DecryptError>(
                flow.request.password@,
            )
            &&& password_check(flow.request.password@, row.password@, flow.user_key@) == Some(true)
            &&& other != flow.request.password@ ==> password_check(other, row.password@, flow.user_key@)
                == Some(false)
        },
{
    if let Step::Query(_, DbRequest::InsertUser(row)) = step {
        lemma_password_check_is_exact(flow.request.password@, row.password@, flow.user_key@);
        lemma_password_check_is_exact(other, row.password@, flow.user_key@);
    }
}

} // verus!
