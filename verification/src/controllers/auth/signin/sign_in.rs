//! Signing a user in for a client: the password is checked, then the user's
//! existing tokens for the client are renewed, or a fresh access and refresh
//! token are issued and stored.

use vstd::prelude::*;
use vstd::utf8::*;

use crate::controllers::auth::signin::generate_token::{generate_token, token_claims};
use crate::controllers::auth::signin::models::{SignInResponse, SignInUser};
use crate::controllers::flow::{copy_string, error_response, DbReply, DbRequest, ErrorResponse, Lookup, Step};
use crate::controllers::signin::checks::{check_and_process_tokens, check_client_exists, day, hour, lemma_password_check_is_exact, password_check, try_check_pass, TokenCheck, TokenCheckStage, TokenCheckStep};
use crate::models::access_token::NewAccessToken;
use crate::models::refresh_token::NewRefreshToken;
use crate::models::user::User;
use crate::utils::config::AppConfig;
use crate::utils::encoding::{parse_usize, parse_usize_spec};
use crate::utils::generate_random_hash::{generate_random_hash_function, is_random_id};
use crate::utils::generate_short_hash::{decrypt_spec, encrypt, DecryptError};
use crate::utils::jwt::{signed_token, ClaimsView};

verus! {

/// Where a sign-in stands.
pub enum SignInStage {
    /// Waiting for the user with the request's email.
    AwaitUser,
    /// The password matched; waiting for the client.
    AwaitClient { user: User },
    /// The client exists; renewing the user's existing tokens.
    Checking { user: User, check: TokenCheck },
    /// Waiting for the new access token to be stored; the refresh token to
    /// store next.
    AwaitAccessInsert { user: User, access_token: String, refresh_row: NewRefreshToken },
    /// Waiting for the new refresh token to be stored.
    AwaitRefreshInsert { user: User, access_token: String },
}

/// A sign-in in progress: the request, the configuration it needs, the time
/// it started (Unix seconds, and the nanoseconds past that second) and where
/// it stands.
pub struct SignIn {
    pub request: SignInUser,
    pub user_key: String,
    pub id_size: String,
    pub secret: String,
    pub now: i64,
    pub now_nanos: u32,
    pub stage: SignInStage,
}

/// A step of a sign-in.
pub type SignInStep = Step<SignIn, Result<SignInResponse, ErrorResponse>>;

/// Starts a sign-in: 500 when `USER_ENCRYPTION_KEY`, `ID_SIZE` or
/// `ROCKET_SECRET` is not set, and otherwise a lookup of the user by email.
pub fn sign_in(
    sign_in_user: SignInUser,
    user_key: Option<String>,
    id_size: Option<String>,
    secret: Option<String>,
    now: i64,
    now_nanos: u32,
) -> (step: SignInStep)
    ensures
        (user_key is None || id_size is None || secret is None) ==> (step matches Step::Respond(
            Err(e),
        ) && e.status == 500 && e.message@ == "Required environment variable(s) are not set"@),
        (user_key is Some && id_size is Some && secret is Some) ==> (step matches Step::Query(
            next,
            DbRequest::FindUserByEmail { email },
        ) && email@ == sign_in_user.email@ && next.wf() && next.stage is AwaitUser
            && next.request == sign_in_user && next.user_key@ == user_key->Some_0@
            && next.id_size@ == id_size->Some_0@ && next.secret@ == secret->Some_0@
            && next.now == now && next.now_nanos == now_nanos),
{
    let mut lookups: Vec<Option<String>> = Vec::new();
    lookups.push(user_key);
    lookups.push(id_size);
    lookups.push(secret);
    if !AppConfig::check_vars(&lookups) {
        assert(lookups@[0] is None || lookups@[1] is None || lookups@[2] is None);
        return Step::Respond(Err(error_response(500, "Required environment variable(s) are not set")));
    }
    let secret = lookups.pop().unwrap().unwrap();
    let id_size = lookups.pop().unwrap().unwrap();
    let user_key = lookups.pop().unwrap().unwrap();
    let email = copy_string(&sign_in_user.email);
    let flow = SignIn { request: sign_in_user, user_key, id_size, secret, now, now_nanos, stage: SignInStage::AwaitUser };
    Step::Query(flow, DbRequest::FindUserByEmail { email })
}

impl SignIn {
    /// The user that the sign-in has found, once it has.
    pub open spec fn stage_user(&self) -> Option<User> {
        match self.stage {
            SignInStage::AwaitUser => None,
            SignInStage::AwaitClient { user } => Some(user),
            SignInStage::Checking { user, .. } => Some(user),
            SignInStage::AwaitAccessInsert { user, .. } => Some(user),
            SignInStage::AwaitRefreshInsert { user, .. } => Some(user),
        }
    }

    /// Expiry of the access token: four hours after the start.
    pub open spec fn access_expiry(&self) -> int {
        self.now + 4 * hour()
    }

    /// Expiry of the refresh token: fourteen days after the start.
    pub open spec fn refresh_expiry(&self) -> int {
        self.now + 14 * day()
    }

    /// The token of the given expiry that the sign-in issues for `user`.
    pub open spec fn token_for(&self, user: User, exp: int) -> Seq<char> {
        signed_token(self.secret@, token_claims(user.id@, user.email@, user.tenant_id@, exp as usize))
    }

    /// Same request and configuration as `other`.
    pub open spec fn same_context(&self, other: &SignIn) -> bool {
        &&& self.request == other.request
        &&& self.user_key@ == other.user_key@
        &&& self.id_size@ == other.id_size@
        &&& self.secret@ == other.secret@
        &&& self.now == other.now
        &&& self.now_nanos == other.now_nanos
    }

    /// Every user the sign-in holds passed the password check, and every token
    /// it holds is one it issued for that user.
    pub open spec fn wf(&self) -> bool {
        &&& self.stage_user() matches Some(u) ==> password_check(
            self.request.password@,
            u.password@,
            self.user_key@,
        ) == Some(true)
        &&& self.stage matches SignInStage::Checking { user, check } ==> {
            &&& check.wf()
            &&& check.secret@ == self.secret@
            &&& check.user_key@ == self.user_key@
            &&& check.client_id@ == self.request.client_id@
            &&& check.user_id@ == user.id@
            &&& check.email@ == user.tenant_id@
            &&& check.tenant_id@ == user.email@
            &&& check.exp_access_token == self.access_expiry() as usize
            &&& check.exp_refresh_token == self.refresh_expiry() as usize
            &&& check.now == self.now
            &&& check.now_nanos == self.now_nanos
            &&& self.access_expiry() <= i64::MAX
            &&& self.refresh_expiry() <= i64::MAX
        }
        &&& self.stage matches SignInStage::AwaitAccessInsert { user, access_token, refresh_row } ==> {
            &&& access_token@ == self.token_for(user, self.access_expiry())
            &&& refresh_row.user_id@ == user.id@
            &&& refresh_row.client_id@ == self.request.client_id@
            &&& refresh_row.expires_at == self.refresh_expiry()
            &&& refresh_row.expires_at_nanos == self.now_nanos
            &&& decrypt_spec(encode_utf8(refresh_row.token@), self.user_key@) == Ok::<
                Seq<char>,
                DecryptError,
            >(self.token_for(user, self.refresh_expiry()))
        }
        &&& self.stage matches SignInStage::AwaitRefreshInsert { user, access_token } ==> access_token@
            == self.token_for(user, self.access_expiry())
    }

    /// `step` issues a fresh pair of tokens for `user`: it stores the access
    /// token first, under a random id of `ID_SIZE` characters, and holds the
    /// sealed refresh token to store next; or gives up when `ID_SIZE` is not a
    /// number of at most 64.
    pub open spec fn is_issue_step(&self, user: User, step: SignInStep) -> bool {
        match parse_usize_spec(encode_utf8(self.id_size@)) {
            Some(size) if size <= 64 => {
                step matches Step::Query(next, DbRequest::InsertAccessToken(row)) && row.user_id@
                    == user.id@ && row.client_id@ == self.request.client_id@ && row.token@
                    == self.token_for(user, self.access_expiry()) && row.expires_at
                    == self.access_expiry() && row.expires_at_nanos == self.now_nanos && is_random_id(row.id@, size as nat) && next.same_context(self) && (
                next.stage matches SignInStage::AwaitAccessInsert { user: v, access_token: t, refresh_row } && v
                    == user && t@ == row.token@ && is_random_id(refresh_row.id@, size as nat))
            },
            _ => step is Abort,
        }
    }

    /// The access token that renewing the user's tokens issues. The renewal
    /// is handed the user's email where it takes the tenant, and the tenant
    /// where it takes the email, so this token carries the two exchanged.
    pub open spec fn renewed_token_for(&self, user: User, exp: int) -> Seq<char> {
        signed_token(self.secret@, token_claims(user.id@, user.tenant_id@, user.email@, exp as usize))
    }

    /// `step` carries on as the step `ts` of the token check `check` does:
    /// its requests are the check's, answered in the `Checking` stage with the
    /// check's next state; once the check is done, the token it wrote is the
    /// answer when it renewed one, and fresh tokens are issued when there was
    /// none to renew; a database error of the check is a 500.
    pub open spec fn follows_check(&self, user: User, check: TokenCheck, ts: TokenCheckStep, step: SignInStep) -> bool {
        match ts {
            Step::Query(c2, r) => step matches Step::Query(next, r2) && r2 == r && next.stage == (
            SignInStage::Checking { user, check: c2 }),
            Step::Respond(Ok(_)) => match check.stage {
                TokenCheckStage::AwaitAccessUpdate { token } => step matches Step::Respond(Ok(resp))
                    && resp.action@ == "Sign In"@ && resp.access_token@ == token@,
                _ => self.is_issue_step(user, step),
            },
            Step::Respond(Err(_)) => step matches Step::Respond(Err(e)) && e.status == 500 && e.message@
                == "Error checking access token existence"@,
            Step::Abort(_) => step is Abort,
        }
    }

    /// Issues a fresh access and refresh token for `user`.
    fn issue_tokens(self, user: User) -> (step: SignInStep)
        requires
            self.wf(),
            password_check(self.request.password@, user.password@, self.user_key@) == Some(true),
            self.access_expiry() <= i64::MAX,
            self.refresh_expiry() <= i64::MAX,
        ensures
            self.is_issue_step(user, step),
            step matches Step::Query(next, _) ==> next.same_context(&self) && next.wf()
                && next.stage_user() == Some(user),
    {
        let exp_access = self.now + 4 * 3600;
        let exp_refresh = self.now + 14 * 86400;
        let access_token = generate_token(
            self.secret.as_str(),
            user.id.as_str(),
            user.email.as_str(),
            user.tenant_id.as_str(),
            exp_access as usize,
        );
        let refresh_token = generate_token(
            self.secret.as_str(),
            user.id.as_str(),
            user.email.as_str(),
            user.tenant_id.as_str(),
            exp_refresh as usize,
        );
        let size = match parse_usize(self.id_size.as_str()) {
            Some(n) => n,
            None => return Step::Abort("ID_SIZE is not a number".to_owned()),
        };
        if size > 64 {
            return Step::Abort("ID_SIZE is longer than a digest".to_owned());
        }
        let rand_hash_access_token = generate_random_hash_function(size);
        let rand_hash_refresh_token = generate_random_hash_function(size);
        let refresh_token_hash = encrypt(refresh_token.as_str(), self.user_key.as_str(), 16);
        let new_access_token = NewAccessToken {
            id: rand_hash_access_token,
            user_id: copy_string(&user.id),
            client_id: copy_string(&self.request.client_id),
            token: copy_string(&access_token),
            expires_at: exp_access,
            expires_at_nanos: self.now_nanos,
        };
        let new_refresh_token = NewRefreshToken {
            id: rand_hash_refresh_token,
            user_id: copy_string(&user.id),
            client_id: copy_string(&self.request.client_id),
            token: refresh_token_hash,
            expires_at: exp_refresh,
            expires_at_nanos: self.now_nanos,
        };
        let SignIn { request, user_key, id_size, secret, now, now_nanos, .. } = self;
        let stage = SignInStage::AwaitAccessInsert { user, access_token, refresh_row: new_refresh_token };
        let next = SignIn { request, user_key, id_size, secret, now, now_nanos, stage };
        Step::Query(next, DbRequest::InsertAccessToken(new_access_token))
    }

    /// What a step of the sign-in is, for the reply it was given: the next
    /// request and stage, or the answer.
    pub open spec fn resume_post(&self, reply: DbReply, step: SignInStep) -> bool {
        &&& step matches Step::Query(next, _) ==> next.same_context(self) && next.wf()
        &&& step matches Step::Respond(Ok(r)) ==> {
            &&& self.stage_user() matches Some(u)
            &&& password_check(self.request.password@, u.password@, self.user_key@) == Some(true)
            &&& r.action@ == "Sign In"@
            &&& r.access_token@ == self.token_for(u, self.access_expiry()) || r.access_token@
                == self.renewed_token_for(u, self.access_expiry())
        }
        &&& match (self.stage, reply) {
            (SignInStage::AwaitUser, DbReply::User(Lookup::Found(u))) => match password_check(
                self.request.password@,
                u.password@,
                self.user_key@,
            ) {
                None => step is Abort,
                Some(false) => step matches Step::Respond(Err(e)) && e.status == 400 && e.message@
                    == "Password does not match"@,
                Some(true) => step matches Step::Query(next, DbRequest::FindClient { id }) && id@
                    == self.request.client_id@ && next.stage == (SignInStage::AwaitClient { user: u }),
            },
            (SignInStage::AwaitUser, DbReply::User(_)) => {
                step matches Step::Respond(Err(e)) && e.status == 500 && e.message@
                    == "Error checking user existence"@
            },
            (SignInStage::AwaitClient { user }, DbReply::Client(Lookup::Found(_))) => {
                if self.refresh_expiry() > i64::MAX {
                    step is Abort
                } else {
                    step matches Step::Query(next, DbRequest::FindAccessToken { client_id, user_id })
                        && client_id@ == self.request.client_id@ && user_id@ == user.id@
                        && next.stage_user() == Some(user) && (next.stage matches SignInStage::Checking {
                        check,
                        ..
                    } && check.stage is AwaitAccessToken)
                }
            },
            (SignInStage::AwaitClient { .. }, DbReply::Client(Lookup::NotFound)) => {
                step matches Step::Respond(Err(e)) && e.status == 400 && e.message@
                    == "Client does not exist"@
            },
            (SignInStage::AwaitClient { .. }, DbReply::Client(Lookup::Failed(_))) => {
                step matches Step::Respond(Err(e)) && e.status == 500 && e.message@
                    == "Error checking client existence"@
            },
            (SignInStage::Checking { user, check }, _) => {
                &&& exists|ts: TokenCheckStep| #[trigger] check.resume_post(reply, ts) && self.follows_check(
                    user,
                    check,
                    ts,
                    step,
                )
                &&& (check.stage is AwaitAccessToken && (reply matches DbReply::AccessToken(found)
                    && !(found is Found))) ==> self.is_issue_step(user, step)
                &&& (check.stage is AwaitAccessUpdate && reply matches DbReply::Written(Ok(_)))
                    ==> (step matches Step::Respond(Ok(r)) && r.action@ == "Sign In"@
                    && r.access_token@ == self.renewed_token_for(user, self.access_expiry()))
                &&& step matches Step::Respond(Err(e)) ==> e.status == 500 && e.message@
                    == "Error checking access token existence"@
                &&& step matches Step::Query(next, DbRequest::InsertAccessToken(_)) ==> self.is_issue_step(
                    user,
                    step,
                )
                &&& step matches Step::Query(next, _) ==> next.stage_user() == Some(user)
            },
            (SignInStage::AwaitAccessInsert { user, access_token, refresh_row }, DbReply::Written(Ok(()))) => {
                step matches Step::Query(next, DbRequest::InsertRefreshToken(row)) && row
                    == refresh_row && next.stage == (SignInStage::AwaitRefreshInsert { user, access_token })
            },
            (SignInStage::AwaitAccessInsert { .. }, DbReply::Written(Err(_))) => {
                step matches Step::Respond(Err(e)) && e.status == 500 && e.message@
                    == "Error saving new access token"@
            },
            (SignInStage::AwaitRefreshInsert { access_token, .. }, DbReply::Written(Ok(()))) => {
                step matches Step::Respond(Ok(r)) && r.access_token@ == access_token@
            },
            (SignInStage::AwaitRefreshInsert { .. }, DbReply::Written(Err(_))) => {
                step matches Step::Respond(Err(e)) && e.status == 500 && e.message@
                    == "Error saving new refresh token"@
            },
            _ => step is Abort,
        }
    }

    /// Takes the database's answer to the last request.
    #[verifier::rlimit(50)]
    pub fn resume(self, reply: DbReply) -> (step: SignInStep)
        requires
            self.wf(),
        ensures
            self.resume_post(reply, step),
    {
        let SignIn { request, user_key, id_size, secret, now, now_nanos, stage } = self;
        match (stage, reply) {
            (SignInStage::AwaitUser, DbReply::User(Lookup::Found(user_taken))) => {
                match try_check_pass(request.password.as_str(), user_taken.password.as_str(), user_key.as_str()) {
                    None => Step::Abort("stored password does not decrypt".to_owned()),
                    Some(false) => Step::Respond(Err(error_response(400, "Password does not match"))),
                    Some(true) => {
                        let client_id = copy_string(&request.client_id);
                        let stage = SignInStage::AwaitClient { user: user_taken };
                        let next = SignIn { request, user_key, id_size, secret, now, now_nanos, stage };
                        Step::Query(next, DbRequest::FindClient { id: client_id })
                    },
                }
            },
            (SignInStage::AwaitUser, DbReply::User(_)) => {
                Step::Respond(Err(error_response(500, "Error checking user existence")))
            },
            (SignInStage::AwaitClient { user }, DbReply::Client(found)) => {
                match check_client_exists(found) {
                    Ok(true) => {
                        let exp_access = match now.checked_add(4 * 3600) {
                            Some(t) => t,
                            None => return Step::Abort("access token expiry out of range".to_owned()),
                        };
                        let exp_refresh = match now.checked_add(14 * 86400) {
                            Some(t) => t,
                            None => return Step::Abort("refresh token expiry out of range".to_owned()),
                        };
                        let started = check_and_process_tokens(
                            secret.as_str(),
                            user_key.as_str(),
                            request.client_id.as_str(),
                            user.id.as_str(),
                            user.email.as_str(),
                            user.tenant_id.as_str(),
                            exp_access as usize,
                            exp_refresh as usize,
                            now,
                            now_nanos,
                        );
                        match started {
                            Step::Query(check, request_for_check) => {
                                let stage = SignInStage::Checking { user, check };
                                let next = SignIn { request, user_key, id_size, secret, now, now_nanos, stage };
                                Step::Query(next, request_for_check)
                            },
                            _ => Step::Abort("token check did not start with a lookup".to_owned()),
                        }
                    },
                    Ok(false) => Step::Respond(Err(error_response(400, "Client does not exist"))),
                    Err(_) => Step::Respond(Err(error_response(500, "Error checking client existence"))),
                }
            },
            (SignInStage::Checking { user, check }, reply) => {
                let renewed = match &check.stage {
                    TokenCheckStage::AwaitAccessUpdate { token } => Some(copy_string(token)),
                    _ => None,
                };
                match check.resume(reply) {
                    Step::Query(check, request_for_check) => {
                        let stage = SignInStage::Checking { user, check };
                        let next = SignIn { request, user_key, id_size, secret, now, now_nanos, stage };
                        Step::Query(next, request_for_check)
                    },
                    Step::Respond(Ok(_)) => match renewed {
                        Some(token) => Step::Respond(Ok(SignInResponse { action: "Sign In".to_owned(), access_token: token })),
                        None => {
                            let flow = SignIn { request, user_key, id_size, secret, now, now_nanos, stage: SignInStage::AwaitUser };
                            flow.issue_tokens(user)
                        },
                    },
                    Step::Respond(Err(_)) => {
                        Step::Respond(Err(error_response(500, "Error checking access token existence")))
                    },
                    Step::Abort(reason) => Step::Abort(reason),
                }
            },
            (SignInStage::AwaitAccessInsert { user, access_token, refresh_row }, DbReply::Written(Ok(()))) => {
                let stage = SignInStage::AwaitRefreshInsert { user, access_token };
                let next = SignIn { request, user_key, id_size, secret, now, now_nanos, stage };
                Step::Query(next, DbRequest::InsertRefreshToken(refresh_row))
            },
            (SignInStage::AwaitAccessInsert { .. }, DbReply::Written(Err(_))) => {
                Step::Respond(Err(error_response(500, "Error saving new access token")))
            },
            (SignInStage::AwaitRefreshInsert { access_token, .. }, DbReply::Written(Ok(()))) => {
                Step::Respond(Ok(SignInResponse { action: "Sign In".to_owned(), access_token }))
            },
            (SignInStage::AwaitRefreshInsert { .. }, DbReply::Written(Err(_))) => {
                Step::Respond(Err(error_response(500, "Error saving new refresh token")))
            },
            _ => Step::Abort("reply does not answer the request".to_owned()),
        }
    }
}

/// A sign-in goes past the user only when the user's stored password opens
/// under `USER_ENCRYPTION_KEY` to exactly the request's password, and answers
/// 400 when it opens to anything else. Every token it hands out or stores is
/// signed with `ROCKET_SECRET` for the user it found, with the user's id in
/// `sub`: a fresh access token carries the user's email and tenant in `email`
/// and `tenant_id` and expires four hours after the start, and its refresh
/// token opens under the key to one that expires fourteen days after it; an
/// access token renewed in place carries the email and the tenant exchanged.
pub proof fn lemma_sign_in_checks_the_password_and_issues_the_users_tokens(
    flow: SignIn,
    reply: DbReply,
    step: SignInStep,
)
    requires
        flow.wf(),
        flow.resume_post(reply, step),
    ensures
        flow.stage is AwaitUser ==> (reply matches DbReply::User(Lookup::Found(u)) ==> match decrypt_spec(
            encode_utf8(u.password@),
            flow.user_key@,
        ) {
            Ok(q) => if q == flow.request.password@ {
                step matches Step::Query(_, DbRequest::FindClient { .. })
            } else {
                step matches Step::Respond(Err(e)) && e.status == 400
            },
            Err(_) => step is Abort,
        }),
        step matches Step::Respond(Ok(r)) ==> (flow.stage_user() matches Some(u) && decrypt_spec(
            encode_utf8(u.password@),
            flow.user_key@,
        ) == Ok::<Seq<char>, DecryptError>(flow.request.password@) && (r.access_token@ == signed_token(
            flow.secret@,
            ClaimsView {
                sub: u.id@,
                email: u.email@,
                tenant_id: u.tenant_id@,
                exp: (flow.now + 4 * 3600) as usize,
            },
        ) || r.access_token@ == signed_token(
            flow.secret@,
            ClaimsView {
                sub: u.id@,
                email: u.tenant_id@,
                tenant_id: u.email@,
                exp: (flow.now + 4 * 3600) as usize,
            },
        ))),
        step matches Step::Query(next, DbRequest::InsertAccessToken(row)) ==> (flow.stage_user() matches Some(u)
            && row.token@ == signed_token(
            flow.secret@,
            ClaimsView {
                sub: u.id@,
                email: u.email@,
                tenant_id: u.tenant_id@,
                exp: (flow.now + 4 * 3600) as usize,
            },
        ) && (next.stage matches SignInStage::AwaitAccessInsert { refresh_row, .. } && decrypt_spec(
            encode_utf8(refresh_row.token@),
            flow.user_key@,
        ) == Ok::<Seq<char>, DecryptError>(
            signed_token(
                flow.secret@,
                ClaimsView {
                    sub: u.id@,
                    email: u.email@,
                    tenant_id: u.tenant_id@,
                    exp: (flow.now + 14 * 86400) as usize,
                },
            ),
        ))),
{
    if let DbReply::User(Lookup::Found(u)) = reply {
        lemma_password_check_is_exact(flow.request.password@, u.password@, flow.user_key@);
    }
    if let Some(u) = flow.stage_user() {
        lemma_password_check_is_exact(flow.request.password@, u.password@, flow.user_key@);
    }
}

} // verus!
