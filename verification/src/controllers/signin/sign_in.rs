//! The first form of sign-in: it finds the user by email, checks the client,
//! renews the user's tokens for the client or issues new ones, and reports
//! every outcome in the answer's `action`, with an empty token on failure.
//! This form does not check the password.

use vstd::prelude::*;
use vstd::utf8::*;

pub use crate::controllers::auth::signin::models::{SignInResponse, SignInUser};
use crate::controllers::auth::signin::generate_token::{generate_token, token_claims};
use crate::controllers::flow::{copy_string, DbReply, DbRequest, Lookup, Step};
use crate::controllers::signin::checks::{
    check_and_update_refresh_token,
    check_client_exists,
    day,
    hour,
    not_found_text,
    refresh_due,
    RefreshTokenCheck,
};
use crate::models::access_token::NewAccessToken;
use crate::models::refresh_token::NewRefreshToken;
use crate::models::user::User;
use crate::utils::encoding::{parse_usize, parse_usize_spec};
use crate::utils::generate_random_hash::{generate_random_hash_function, is_random_id};
use crate::utils::generate_short_hash::{decrypt_spec, encrypt, DecryptError};
use crate::utils::jwt::{signed_token, ClaimsView};

verus! {

/// Where a sign-in of this form stands.
pub enum LegacyStage {
    AwaitUser,
    AwaitClient { user: User },
    AwaitAccessToken { user: User },
    AwaitRefreshToken { user: User, access_token_id: String },
    AwaitRefreshUpdate { user: User, access_token_id: String },
    AwaitAccessUpdate { user: User, token: String },
    AwaitAccessInsert { user: User, access_token: String, refresh_row: NewRefreshToken },
    AwaitRefreshInsert { user: User, access_token: String, access_saved: bool },
}

/// A sign-in of this form in progress. The configuration values are those of
/// `USER_ENCRYPTION_KEY`, `ID_SIZE` and `ROCKET_SECRET`, read only where they
/// are needed; `now` is the start time in Unix seconds and `now_nanos` the nanoseconds past it.
pub struct LegacySignIn {
    pub request: SignInUser,
    pub key: Option<String>,
    pub size: Option<String>,
    pub secret: Option<String>,
    pub now: i64,
    pub now_nanos: u32,
    pub stage: LegacyStage,
}

/// A step of a sign-in of this form.
pub type LegacySignInStep = Step<LegacySignIn, SignInResponse>;

/// Starts a sign-in of this form by looking up the user by email.
pub fn sign_in(
    sign_in_user: SignInUser,
    key: Option<String>,
    size: Option<String>,
    secret: Option<String>,
    now: i64,
    now_nanos: u32,
) -> (step: LegacySignInStep)
    ensures
        step matches Step::Query(next, DbRequest::FindUserByEmail { email }) && email@ == sign_in_user.email@
            && next.stage is AwaitUser && next.request == sign_in_user && next.key == key && next.size == size
            && next.secret == secret && next.now == now && next.now_nanos == now_nanos && next.wf(),
{
    let email = copy_string(&sign_in_user.email);
    let flow = LegacySignIn { request: sign_in_user, key, size, secret, now, now_nanos, stage: LegacyStage::AwaitUser };
    Step::Query(flow, DbRequest::FindUserByEmail { email })
}

/// An answer of this form that reports `action` without a token.
fn failure(action: String) -> (answer: SignInResponse)
    ensures
        answer.action == action,
        answer.access_token@.len() == 0,
{
    SignInResponse { action, access_token: String::new() }
}

impl LegacySignIn {
    /// The user that the sign-in has found, once it has.
    pub open spec fn stage_user(&self) -> Option<User> {
        match self.stage {
            LegacyStage::AwaitUser => None,
            LegacyStage::AwaitClient { user } => Some(user),
            LegacyStage::AwaitAccessToken { user } => Some(user),
            LegacyStage::AwaitRefreshToken { user, .. } => Some(user),
            LegacyStage::AwaitRefreshUpdate { user, .. } => Some(user),
            LegacyStage::AwaitAccessUpdate { user, .. } => Some(user),
            LegacyStage::AwaitAccessInsert { user, .. } => Some(user),
            LegacyStage::AwaitRefreshInsert { user, .. } => Some(user),
        }
    }

    /// Expiry of the access token: an hour after the start.
    pub open spec fn access_expiry(&self) -> int {
        self.now + hour()
    }

    /// Expiry of the refresh token: fourteen days after the start.
    pub open spec fn refresh_expiry(&self) -> int {
        self.now + 14 * day()
    }

    /// The token of the given expiry that this sign-in issues for `user`.
    pub open spec fn token_for(&self, user: User, exp: int) -> Seq<char> {
        signed_token(self.secret->Some_0@, token_claims(user.id@, user.email@, user.tenant_id@, exp as usize))
    }

    /// Same request and configuration as `other`.
    pub open spec fn same_context(&self, other: &LegacySignIn) -> bool {
        &&& self.request == other.request
        &&& self.key == other.key
        &&& self.size == other.size
        &&& self.secret == other.secret
        &&& self.now == other.now
        &&& self.now_nanos == other.now_nanos
    }

    /// Every token the sign-in holds is one it issued for its user, and the
    /// configuration it read is set.
    pub open spec fn wf(&self) -> bool {
        &&& !(self.stage is AwaitUser || self.stage is AwaitClient) ==> {
            &&& self.access_expiry() <= i64::MAX
            &&& self.refresh_expiry() <= i64::MAX
        }
        &&& (self.stage is AwaitRefreshToken || self.stage is AwaitRefreshUpdate || self.stage is AwaitAccessUpdate
            || self.stage is AwaitAccessInsert || self.stage is AwaitRefreshInsert) ==> self.secret is Some
            && self.key is Some
        &&& self.stage matches LegacyStage::AwaitAccessUpdate { user, token } ==> token@ == self.token_for(
            user,
            self.access_expiry(),
        )
        &&& self.stage matches LegacyStage::AwaitAccessInsert { user, access_token, refresh_row } ==> {
            &&& access_token@ == self.token_for(user, self.access_expiry())
            &&& refresh_row.user_id@ == user.id@
            &&& refresh_row.client_id@ == self.request.client_id@
            &&& refresh_row.expires_at == self.refresh_expiry()
            &&& refresh_row.expires_at_nanos == self.now_nanos
            &&& decrypt_spec(encode_utf8(refresh_row.token@), self.key->Some_0@) == Ok::<Seq<char>, DecryptError>(
                self.token_for(user, self.refresh_expiry()),
            )
        }
        &&& self.stage matches LegacyStage::AwaitRefreshInsert { user, access_token, .. } ==> access_token@
            == self.token_for(user, self.access_expiry())
    }

    /// The length of the token ids to draw, from `ID_SIZE`.
    pub open spec fn id_len(&self) -> Option<usize> {
        match self.size {
            Some(s) => parse_usize_spec(encode_utf8(s@)),
            None => None,
        }
    }

    /// `step` rewrites access token `access_token_id` with a fresh token for
    /// `user`, valid for an hour from the start.
    pub open spec fn is_access_update(&self, user: User, access_token_id: Seq<char>, step: LegacySignInStep) -> bool {
        step matches Step::Query(next, DbRequest::UpdateAccessToken { id, token, expires_at, expires_at_nanos }) && id@
            == access_token_id && token@ == self.token_for(user, self.access_expiry()) && expires_at
            == self.access_expiry() && expires_at_nanos == self.now_nanos && (next.stage matches LegacyStage::AwaitAccessUpdate { user: v, token: t } && v
            == user && t@ == token@)
    }

    /// `step` issues a fresh pair of tokens for `user`, storing the access
    /// token first under a random id of `ID_SIZE` characters; or gives up when
    /// the configuration it needs is missing or `ID_SIZE` is not a number of at
    /// most 64.
    pub open spec fn is_issue_step(&self, user: User, step: LegacySignInStep) -> bool {
        if self.secret is Some && self.key is Some && self.id_len() is Some && self.id_len()->Some_0 <= 64 {
            step matches Step::Query(next, DbRequest::InsertAccessToken(row)) && row.user_id@ == user.id@
                && row.client_id@ == self.request.client_id@ && row.token@ == self.token_for(
                user,
                self.access_expiry(),
            ) && row.expires_at == self.access_expiry() && row.expires_at_nanos == self.now_nanos && is_random_id(row.id@, self.id_len()->Some_0 as nat)
                && (next.stage matches LegacyStage::AwaitAccessInsert { user: v, access_token: t, refresh_row } && v
                == user && t@ == row.token@ && is_random_id(refresh_row.id@, self.id_len()->Some_0 as nat))
        } else {
            step is Abort
        }
    }

    fn rebuild(request: SignInUser, key: Option<String>, size: Option<String>, secret: Option<String>, now: i64, now_nanos: u32, stage: LegacyStage) -> (flow: LegacySignIn)
        ensures
            flow == (LegacySignIn { request, key, size, secret, now, now_nanos, stage }),
    {
        LegacySignIn { request, key, size, secret, now, now_nanos, stage }
    }

    fn update_access(self, user: User, access_token_id: String) -> (step: LegacySignInStep)
        requires
            self.wf(),
            self.secret is Some,
            self.key is Some,
            self.access_expiry() <= i64::MAX,
            self.refresh_expiry() <= i64::MAX,
        ensures
            self.is_access_update(user, access_token_id@, step),
            step matches Step::Query(next, _) ==> next.same_context(&self) && next.wf(),
    {
        let LegacySignIn { request, key, size, secret, now, now_nanos, .. } = self;
        let secret_str = match secret {
            Some(s) => s,
            None => return Step::Abort("ROCKET_SECRET is not set".to_owned()),
        };
        let exp_access = now + 3600;
        let access_token = generate_token(
            secret_str.as_str(),
            user.id.as_str(),
            user.email.as_str(),
            user.tenant_id.as_str(),
            exp_access as usize,
        );
        let token = copy_string(&access_token);
        let stage = LegacyStage::AwaitAccessUpdate { user, token: access_token };
        let next = Self::rebuild(request, key, size, Some(secret_str), now, now_nanos, stage);
        Step::Query(next, DbRequest::UpdateAccessToken {
            id: access_token_id,
            token,
            expires_at: exp_access,
            expires_at_nanos: now_nanos,
        })
    }

    fn issue_tokens(self, user: User) -> (step: LegacySignInStep)
        requires
            self.wf(),
            self.access_expiry() <= i64::MAX,
            self.refresh_expiry() <= i64::MAX,
        ensures
            self.is_issue_step(user, step),
            step matches Step::Query(next, _) ==> next.same_context(&self) && next.wf(),
    {
        let LegacySignIn { request, key, size, secret, now, now_nanos, .. } = self;
        let secret_str = match secret {
            Some(s) => s,
            None => return Step::Abort("ROCKET_SECRET is not set".to_owned()),
        };
        let exp_access = now + 3600;
        let exp_refresh = now + 14 * 86400;
        let access_token = generate_token(
            secret_str.as_str(),
            user.id.as_str(),
            user.email.as_str(),
            user.tenant_id.as_str(),
            exp_access as usize,
        );
        let refresh_token = generate_token(
            secret_str.as_str(),
            user.id.as_str(),
            user.email.as_str(),
            user.tenant_id.as_str(),
            exp_refresh as usize,
        );
        let size_str = match size {
            Some(s) => s,
            None => return Step::Abort("ID_SIZE is not set".to_owned()),
        };
        let n = match parse_usize(size_str.as_str()) {
            Some(n) => n,
            None => return Step::Abort("ID_SIZE is not a number".to_owned()),
        };
        if n > 64 {
            return Step::Abort("ID_SIZE is longer than a digest".to_owned());
        }
        let rand_hash_access_token = generate_random_hash_function(n);
        let rand_hash_refresh_token = generate_random_hash_function(n);
        let key_str = match key {
            Some(k) => k,
            None => return Step::Abort("USER_ENCRYPTION_KEY is not set".to_owned()),
        };
        let refresh_token_hash = encrypt(refresh_token.as_str(), key_str.as_str(), 16);
        let new_access_token = NewAccessToken {
            id: rand_hash_access_token,
            user_id: copy_string(&user.id),
            client_id: copy_string(&request.client_id),
            token: copy_string(&access_token),
            expires_at: exp_access,
            expires_at_nanos: now_nanos,
        };
        let new_refresh_token = NewRefreshToken {
            id: rand_hash_refresh_token,
            user_id: copy_string(&user.id),
            client_id: copy_string(&request.client_id),
            token: refresh_token_hash,
            expires_at: exp_refresh,
            expires_at_nanos: now_nanos,
        };
        let stage = LegacyStage::AwaitAccessInsert { user, access_token, refresh_row: new_refresh_token };
        let next = Self::rebuild(request, Some(key_str), Some(size_str), Some(secret_str), now, now_nanos, stage);
        Step::Query(next, DbRequest::InsertAccessToken(new_access_token))
    }

    /// What a step of this sign-in is, for the reply it was given: the next
    /// request and stage, or the answer.
    pub open spec fn resume_post(&self, reply: DbReply, step: LegacySignInStep) -> bool {
        &&& step matches Step::Query(next, _) ==> next.same_context(self) && next.wf()
        &&& step matches Step::Respond(r) ==> (r.access_token@.len() == 0 || (self.stage_user() matches Some(u)
            && r.access_token@ == self.token_for(u, self.access_expiry())))
        &&& step matches Step::Respond(r) ==> (r.action@ != "Sign In"@ ==> r.access_token@.len() == 0)
        &&& match (self.stage, reply) {
            (LegacyStage::AwaitUser, DbReply::User(Lookup::Found(u))) => step matches Step::Query(
                next,
                DbRequest::FindClient { id },
            ) && id@ == self.request.client_id@ && next.stage == (LegacyStage::AwaitClient { user: u }),
            (LegacyStage::AwaitUser, DbReply::User(_)) => step matches Step::Respond(r) && r.action@
                == "Sign In Failed"@,
            (LegacyStage::AwaitClient { user }, DbReply::Client(Lookup::Found(_))) => if self.refresh_expiry()
                > i64::MAX {
                step is Abort
            } else {
                step matches Step::Query(next, DbRequest::FindAccessToken { client_id, user_id }) && client_id@
                    == self.request.client_id@ && user_id@ == user.id@ && next.stage == (LegacyStage::AwaitAccessToken {
                    user,
                })
            },
            (LegacyStage::AwaitClient { .. }, DbReply::Client(Lookup::NotFound)) => step matches Step::Respond(r)
                && r.action@ == "Client does not exist"@,
            (LegacyStage::AwaitClient { .. }, DbReply::Client(Lookup::Failed(_))) => step matches Step::Respond(r)
                && r.action@ == "Error checking client existence"@,
            (LegacyStage::AwaitAccessToken { user }, DbReply::AccessToken(Lookup::Found(t))) => if self.secret
                is Some && self.key is Some {
                step matches Step::Query(next, DbRequest::FindRefreshToken { client_id, user_id }) && client_id@
                    == self.request.client_id@ && user_id@ == user.id@ && (
                next.stage matches LegacyStage::AwaitRefreshToken { user: v, access_token_id: a } && v == user
                    && a@ == t.id@)
            } else {
                step is Abort
            },
            (LegacyStage::AwaitAccessToken { user }, DbReply::AccessToken(_)) => self.is_issue_step(user, step),
            (LegacyStage::AwaitRefreshToken { user, access_token_id }, DbReply::RefreshToken(Lookup::Found(r))) => {
                if r.expires_at - day() < i64::MIN {
                    step is Abort
                } else if refresh_due(r.expires_at, r.expires_at_nanos, self.now, self.now_nanos) {
                    step matches Step::Query(next, DbRequest::UpdateRefreshToken { id, token, expires_at, expires_at_nanos })
                        && id@ == r.id@ && expires_at == self.refresh_expiry() && expires_at_nanos == self.now_nanos && decrypt_spec(
                        encode_utf8(token@),
                        self.key->Some_0@,
                    ) == Ok::<Seq<char>, DecryptError>(self.token_for(user, self.refresh_expiry())) && (
                    next.stage matches LegacyStage::AwaitRefreshUpdate { user: v, access_token_id: a } && v
                        == user && a@ == access_token_id@)
                } else {
                    self.is_access_update(user, access_token_id@, step)
                }
            },
            (LegacyStage::AwaitRefreshToken { .. }, DbReply::RefreshToken(Lookup::NotFound)) => step matches Step::Respond(
                r,
            ) && r.action@ == not_found_text(),
            (LegacyStage::AwaitRefreshToken { .. }, DbReply::RefreshToken(Lookup::Failed(e))) => step matches Step::Respond(
                r,
            ) && r.action@ == e@,
            (LegacyStage::AwaitRefreshUpdate { user, access_token_id }, DbReply::Written(Ok(()))) => {
                self.is_access_update(user, access_token_id@, step)
            },
            (LegacyStage::AwaitRefreshUpdate { .. }, DbReply::Written(Err(e))) => step matches Step::Respond(r)
                && r.action@ == e@,
            (LegacyStage::AwaitAccessUpdate { token, .. }, DbReply::Written(Ok(()))) => step matches Step::Respond(
                r,
            ) && r.action@ == "Sign In"@ && r.access_token@ == token@,
            (LegacyStage::AwaitAccessUpdate { .. }, DbReply::Written(Err(_))) => step matches Step::Respond(r)
                && r.action@ == "Error updating access token"@,
            (LegacyStage::AwaitAccessInsert { user, access_token, refresh_row }, DbReply::Written(written)) => step matches Step::Query(
                next,
                DbRequest::InsertRefreshToken(row),
            ) && row == refresh_row && next.stage == (LegacyStage::AwaitRefreshInsert {
                user,
                access_token,
                access_saved: written is Ok,
            }),
            (LegacyStage::AwaitRefreshInsert { access_token, access_saved, .. }, DbReply::Written(written)) => (
            access_saved && written is Ok ==> (step matches Step::Respond(r) && r.access_token@ == access_token@))
                && (step matches Step::Respond(
                r,
            ) && r.action@ == (if !access_saved {
                "Error saving new access token"@
            } else if written is Err {
                "Error saving new refresh token"@
            } else {
                "Sign In"@
            })),
            _ => step is Abort,
        }
    }

    /// Takes the database's answer to the last request.
    #[verifier::rlimit(60)]
    pub fn resume(self, reply: DbReply) -> (step: LegacySignInStep)
        requires
            self.wf(),
        ensures
            self.resume_post(reply, step),
    {
        let LegacySignIn { request, key, size, secret, now, now_nanos, stage } = self;
        match (stage, reply) {
            (LegacyStage::AwaitUser, DbReply::User(Lookup::Found(user_taken))) => {
                let client_id = copy_string(&request.client_id);
                let stage = LegacyStage::AwaitClient { user: user_taken };
                let next = Self::rebuild(request, key, size, secret, now, now_nanos, stage);
                Step::Query(next, DbRequest::FindClient { id: client_id })
            },
            (LegacyStage::AwaitUser, DbReply::User(_)) => Step::Respond(failure("Sign In Failed".to_owned())),
            (LegacyStage::AwaitClient { user }, DbReply::Client(found)) => match check_client_exists(found) {
                Ok(true) => {
                    if now.checked_add(14 * 86400).is_none() {
                        return Step::Abort("refresh token expiry out of range".to_owned());
                    }
                    let query = DbRequest::FindAccessToken {
                        client_id: copy_string(&request.client_id),
                        user_id: copy_string(&user.id),
                    };
                    let next = Self::rebuild(request, key, size, secret, now, now_nanos, LegacyStage::AwaitAccessToken { user });
                    Step::Query(next, query)
                },
                Ok(false) => Step::Respond(failure("Client does not exist".to_owned())),
                Err(_) => Step::Respond(failure("Error checking client existence".to_owned())),
            },
            (LegacyStage::AwaitAccessToken { user }, DbReply::AccessToken(Lookup::Found(present_access_token))) => {
                if secret.is_none() || key.is_none() {
                    return Step::Abort("ROCKET_SECRET or USER_ENCRYPTION_KEY is not set".to_owned());
                }
                let query = DbRequest::FindRefreshToken {
                    client_id: copy_string(&request.client_id),
                    user_id: copy_string(&user.id),
                };
                let stage = LegacyStage::AwaitRefreshToken { user, access_token_id: present_access_token.id };
                let next = Self::rebuild(request, key, size, secret, now, now_nanos, stage);
                Step::Query(next, query)
            },
            (LegacyStage::AwaitAccessToken { user }, DbReply::AccessToken(_)) => {
                let flow = Self::rebuild(request, key, size, secret, now, now_nanos, LegacyStage::AwaitUser);
                flow.issue_tokens(user)
            },
            (LegacyStage::AwaitRefreshToken { user, access_token_id }, DbReply::RefreshToken(found)) => {
                let secret_str = match &secret {
                    Some(s) => copy_string(s),
                    None => return Step::Abort("ROCKET_SECRET is not set".to_owned()),
                };
                let key_str = match &key {
                    Some(k) => copy_string(k),
                    None => return Step::Abort("USER_ENCRYPTION_KEY is not set".to_owned()),
                };
                let decision = check_and_update_refresh_token(
                    found,
                    secret_str.as_str(),
                    user.id.as_str(),
                    user.email.as_str(),
                    user.tenant_id.as_str(),
                    (#[verifier::truncate] ((now + 14 * 86400) as usize)),
                    key_str.as_str(),
                    now,
                    now_nanos,
                );
                match decision {
                    RefreshTokenCheck::Failed(e) => Step::Respond(failure(e)),
                    RefreshTokenCheck::OutOfRange => Step::Abort("refresh token expiry out of range".to_owned()),
                    RefreshTokenCheck::Fresh => {
                        let flow = Self::rebuild(request, key, size, secret, now, now_nanos, LegacyStage::AwaitUser);
                        flow.update_access(user, access_token_id)
                    },
                    RefreshTokenCheck::Renew(update) => {
                        let stage = LegacyStage::AwaitRefreshUpdate { user, access_token_id };
                        let next = Self::rebuild(request, key, size, secret, now, now_nanos, stage);
                        Step::Query(next, update)
                    },
                }
            },
            (LegacyStage::AwaitRefreshUpdate { user, access_token_id }, DbReply::Written(Ok(()))) => {
                let flow = Self::rebuild(request, key, size, secret, now, now_nanos, LegacyStage::AwaitUser);
                flow.update_access(user, access_token_id)
            },
            (LegacyStage::AwaitRefreshUpdate { .. }, DbReply::Written(Err(e))) => Step::Respond(failure(e)),
            (LegacyStage::AwaitAccessUpdate { token, .. }, DbReply::Written(Ok(()))) => {
                Step::Respond(SignInResponse { action: "Sign In".to_owned(), access_token: token })
            },
            (LegacyStage::AwaitAccessUpdate { .. }, DbReply::Written(Err(_))) => {
                Step::Respond(failure("Error updating access token".to_owned()))
            },
            (LegacyStage::AwaitAccessInsert { user, access_token, refresh_row }, DbReply::Written(written)) => {
                let access_saved = written.is_ok();
                let stage = LegacyStage::AwaitRefreshInsert { user, access_token, access_saved };
                let next = Self::rebuild(request, key, size, secret, now, now_nanos, stage);
                Step::Query(next, DbRequest::InsertRefreshToken(refresh_row))
            },
            (LegacyStage::AwaitRefreshInsert { access_token, access_saved, .. }, DbReply::Written(written)) => {
                if !access_saved {
                    Step::Respond(failure("Error saving new access token".to_owned()))
                } else if written.is_err() {
                    Step::Respond(failure("Error saving new refresh token".to_owned()))
                } else {
                    Step::Respond(SignInResponse { action: "Sign In".to_owned(), access_token })
                }
            },
            _ => Step::Abort("reply does not answer the request".to_owned()),
        }
    }
}

/// Every token this sign-in hands out or stores is signed with
/// `ROCKET_SECRET` for the user it found, with the user's id, email and tenant
/// in `sub`, `email` and `tenant_id`: the access token it answers with, stores
/// or writes over an existing one expires an hour after the start, and the
/// refresh token it stores or renews opens under `USER_ENCRYPTION_KEY` to one
/// that expires fourteen days after the start.
pub proof fn lemma_first_form_tokens_carry_the_user(flow: LegacySignIn, reply: DbReply, step: LegacySignInStep)
    requires
        flow.wf(),
        flow.resume_post(reply, step),
    ensures
        step matches Step::Respond(r) ==> (r.access_token@.len() > 0 ==> (flow.stage_user() matches Some(u)
            && r.access_token@ == signed_token(
            flow.secret->Some_0@,
            ClaimsView { sub: u.id@, email: u.email@, tenant_id: u.tenant_id@, exp: (flow.now + 3600) as usize },
        ))),
        step matches Step::Query(_, DbRequest::InsertAccessToken(row)) ==> (flow.stage_user() matches Some(u)
            && row.token@ == signed_token(
            flow.secret->Some_0@,
            ClaimsView { sub: u.id@, email: u.email@, tenant_id: u.tenant_id@, exp: (flow.now + 3600) as usize },
        )),
        step matches Step::Query(next, DbRequest::InsertAccessToken(_)) ==> (flow.stage_user() matches Some(u)
            && next.stage matches LegacyStage::AwaitAccessInsert { refresh_row, .. } && decrypt_spec(
            encode_utf8(refresh_row.token@),
            flow.key->Some_0@,
        ) == Ok::<Seq<char>, DecryptError>(
            signed_token(
                flow.secret->Some_0@,
                ClaimsView {
                    sub: u.id@,
                    email: u.email@,
                    tenant_id: u.tenant_id@,
                    exp: (flow.now + 14 * 86400) as usize,
                },
            ),
        )),
        step matches Step::Query(_, DbRequest::InsertRefreshToken(row)) ==> (flow.stage_user() matches Some(u)
            && decrypt_spec(encode_utf8(row.token@), flow.key->Some_0@) == Ok::<Seq<char>, DecryptError>(
            signed_token(
                flow.secret->Some_0@,
                ClaimsView {
                    sub: u.id@,
                    email: u.email@,
                    tenant_id: u.tenant_id@,
                    exp: (flow.now + 14 * 86400) as usize,
                },
            ),
        )),
        step matches Step::Query(_, DbRequest::UpdateAccessToken { token, .. }) ==> (flow.stage_user() matches Some(
            u,
        ) && token@ == signed_token(
            flow.secret->Some_0@,
            ClaimsView { sub: u.id@, email: u.email@, tenant_id: u.tenant_id@, exp: (flow.now + 3600) as usize },
        )),
        step matches Step::Query(_, DbRequest::UpdateRefreshToken { token, .. }) ==> (flow.stage_user() matches Some(
            u,
        ) && decrypt_spec(encode_utf8(token@), flow.key->Some_0@) == Ok::<Seq<char>, DecryptError>(
            signed_token(
                flow.secret->Some_0@,
                ClaimsView {
                    sub: u.id@,
                    email: u.email@,
                    tenant_id: u.tenant_id@,
                    exp: (flow.now + 14 * 86400) as usize,
                },
            ),
        )),
{
}

} // verus!
