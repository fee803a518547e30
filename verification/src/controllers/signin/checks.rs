//! The checks made while signing a user in: the password, the client, and the
//! renewal of tokens that the user already holds for the client.

use vstd::prelude::*;
use vstd::utf8::*;

use crate::controllers::auth::signin::generate_token::{generate_token, token_claims};
use crate::controllers::flow::{copy_string, DbReply, DbRequest, Lookup, Step};
use crate::models::client::Client;
use crate::models::refresh_token::RefreshToken;
use crate::utils::generate_short_hash::{decrypt, decrypt_spec, encrypt, encrypt_spec, lemma_decrypt_encrypt, DecryptError};
use crate::utils::jwt::signed_token;

verus! {

/// Seconds in an hour and in a day.
pub open spec fn hour() -> int {
    3600
}

pub open spec fn day() -> int {
    86400
}

/// What checking `provided` against the stored, sealed password gives:
/// whether it matches, or `None` when the stored value does not open under
/// `key`.
pub open spec fn password_check(provided: Seq<char>, stored: Seq<char>, key: Seq<char>) -> Option<bool> {
    match decrypt_spec(encode_utf8(stored), key) {
        Ok(plain) => Some(plain == provided),
        Err(_) => None,
    }
}

/// Whether `provided_password` is the password sealed in `database_password`
/// under `key`. The stored value must open under `key`.
pub fn check_pass(provided_password: &str, database_password: &str, key: &str) -> (matched: Result<bool, String>)
    requires
        password_check(provided_password@, database_password@, key@) is Some,
    ensures
        matched == Ok::<bool, String>(password_check(provided_password@, database_password@, key@)->Some_0),
{
    match try_check_pass(provided_password, database_password, key) {
        Some(b) => Ok(b),
        None => {
            assert(false);
            Ok(false)
        },
    }
}

/// Whether `provided_password` is the password sealed in `database_password`
/// under `key`; `None` when the stored value does not open under `key`.
pub fn try_check_pass(provided_password: &str, database_password: &str, key: &str) -> (matched: Option<bool>)
    ensures
        matched == password_check(provided_password@, database_password@, key@),
{
    match decrypt(database_password, key) {
        Ok(plain) => Some(plain == provided_password.to_owned()),
        Err(_) => None,
    }
}

/// A password stored the way registration stores it is accepted for that
/// password.
pub proof fn lemma_stored_password_accepted(password: Seq<char>, key: Seq<char>, nonce: Seq<u8>, stored: Seq<char>)
    requires
        nonce.len() <= u64::MAX,
        encode_utf8(stored) == encrypt_spec(password, key, nonce),
    ensures
        password_check(password, stored, key) == Some(true),
{
    lemma_decrypt_encrypt(password, key, nonce);
}

/// Checking a password against a stored value accepts exactly the password
/// the value opens to under the key: the provided password is accepted when
/// the stored value opens to it, refused when the value opens to anything
/// else, and the check cannot be made when the value does not open.
pub proof fn lemma_password_check_is_exact(provided: Seq<char>, stored: Seq<char>, key: Seq<char>)
    ensures
        password_check(provided, stored, key) == Some(true) <==> decrypt_spec(encode_utf8(stored), key)
            == Ok::<Seq<char>, DecryptError>(provided),
        password_check(provided, stored, key) == Some(false) <==> (decrypt_spec(encode_utf8(stored), key) is Ok
            && decrypt_spec(encode_utf8(stored), key) != Ok::<Seq<char>, DecryptError>(provided)),
        password_check(provided, stored, key) is None <==> decrypt_spec(encode_utf8(stored), key) is Err,
{
}

/// A password sealed under a key is accepted for that password and refused
/// for every other one.
pub proof fn lemma_sealed_password_accepts_only_itself(
    password: Seq<char>,
    other: Seq<char>,
    key: Seq<char>,
    nonce: Seq<u8>,
    stored: Seq<char>,
)
    requires
        nonce.len() <= u64::MAX,
        encode_utf8(stored) == encrypt_spec(password, key, nonce),
    ensures
        password_check(password, stored, key) == Some(true),
        other != password ==> password_check(other, stored, key) == Some(false),
{
    lemma_decrypt_encrypt(password, key, nonce);
    lemma_password_check_is_exact(password, stored, key);
    lemma_password_check_is_exact(other, stored, key);
}

/// Whether the client exists, from what looking it up found: a lookup that
/// found nothing says no, a failed one gives its error.
pub fn check_client_exists(found: Lookup<Client>) -> (exists: Result<bool, String>)
    ensures
        found is Found ==> exists == Ok::<bool, String>(true),
        found is NotFound ==> exists == Ok::<bool, String>(false),
        found matches Lookup::Failed(e) ==> exists matches Err(m) && m@ == e@,
{
    match found {
        Lookup::Found(_) => Ok(true),
        Lookup::NotFound => Ok(false),
        Lookup::Failed(e) => Err(e),
    }
}

/// The text of the database error for a lookup that found nothing.
pub open spec fn not_found_text() -> Seq<char> {
    "Record not found"@
}

/// The error text of a lookup that did not find its row.
pub fn lookup_error_text<T>(found: Lookup<T>) -> (text: String)
    requires
        !(found is Found),
    ensures
        found is NotFound ==> text@ == not_found_text(),
        found matches Lookup::Failed(e) ==> text@ == e@,
{
    match found {
        Lookup::Failed(e) => e,
        _ => "Record not found".to_owned(),
    }
}

/// What checking the user's refresh token for a client decided.
pub enum RefreshTokenCheck {
    /// Looking the token up failed or found nothing: the error's text.
    Failed(String),
    /// The token is not within a day of expiring; nothing to write.
    Fresh,
    /// The token is within a day of expiring: write this.
    Renew(DbRequest),
    /// A time computation went out of range.
    OutOfRange,
}

/// Whether a refresh token expiring at `expires_at` seconds and
/// `expires_at_nanos` nanoseconds is due for renewal at the time `now` seconds
/// and `now_nanos` nanoseconds: its last day has begun, to the nanosecond.
pub open spec fn refresh_due(expires_at: i64, expires_at_nanos: u32, now: i64, now_nanos: u32) -> bool {
    now > expires_at - day() || (now == expires_at - day() && now_nanos > expires_at_nanos)
}

/// Decides what to do with the user's refresh token for a client, from what
/// looking it up found. When the token is in its last day (or past it), it is
/// replaced by a fresh one, signed for the user with expiry `exp`, sealed
/// under `encrypt_key`, and valid for 14 days from `now`.
pub fn check_and_update_refresh_token(
    found: Lookup<RefreshToken>,
    secret: &str,
    provided_user_id: &str,
    provided_user_email_for_refresh: &str,
    provided_tenant_id_for_refresh: &str,
    exp: usize,
    encrypt_key: &str,
    now: i64,
    now_nanos: u32,
) -> (decision: RefreshTokenCheck)
    ensures
        !(found is Found) ==> (decision matches RefreshTokenCheck::Failed(e) && (found is NotFound
            ==> e@ == not_found_text()) && (found matches Lookup::Failed(t) ==> e@ == t@)),
        found matches Lookup::Found(token) ==> {
            if token.expires_at - day() < i64::MIN || now + 14 * day() > i64::MAX {
                decision is OutOfRange
            } else if refresh_due(token.expires_at, token.expires_at_nanos, now, now_nanos) {
                (decision matches RefreshTokenCheck::Renew(DbRequest::UpdateRefreshToken { id, token: sealed, expires_at, expires_at_nanos }) && id@
                    == token.id@ && expires_at == now + 14 * day() && expires_at_nanos == now_nanos && decrypt_spec(
                    encode_utf8(sealed@),
                    encrypt_key@,
                ) == Ok::<Seq<char>, DecryptError>(
                    signed_token(
                        secret@,
                        token_claims(
                            provided_user_id@,
                            provided_user_email_for_refresh@,
                            provided_tenant_id_for_refresh@,
                            exp,
                        ),
                    ),
                ))
            } else {
                decision is Fresh
            }
        },
{
    match found {
        Lookup::Found(token) => {
            let new_refresh_token = generate_token(
                secret,
                provided_user_id,
                provided_user_email_for_refresh,
                provided_tenant_id_for_refresh,
                exp,
            );
            let encrypted_token = encrypt(new_refresh_token.as_str(), encrypt_key, 16);
            let one_day_before_expiration = match token.expires_at.checked_sub(86400) {
                Some(t) => t,
                None => return RefreshTokenCheck::OutOfRange,
            };
            let current_plus_14_days = match now.checked_add(14 * 86400) {
                Some(t) => t,
                None => return RefreshTokenCheck::OutOfRange,
            };
            if now > one_day_before_expiration || (now == one_day_before_expiration && now_nanos > token.expires_at_nanos) {
                RefreshTokenCheck::Renew(
                    DbRequest::UpdateRefreshToken {
                        id: token.id,
                        token: encrypted_token,
                        expires_at: current_plus_14_days,
                        expires_at_nanos: now_nanos,
                    },
                )
            } else {
                RefreshTokenCheck::Fresh
            }
        },
        _ => RefreshTokenCheck::Failed(lookup_error_text(found)),
    }
}

/// Where the renewal of a user's tokens for a client stands.
pub enum TokenCheckStage {
    /// Waiting for the user's access token for the client.
    AwaitAccessToken,
    /// Waiting for the user's refresh token; the access token's id.
    AwaitRefreshToken { access_token_id: String },
    /// Waiting for the refresh token to be rewritten.
    AwaitRefreshUpdate { access_token_id: String },
    /// Waiting for the access token to be rewritten with `token`.
    AwaitAccessUpdate { token: String },
}

/// The renewal of the tokens that a user already holds for a client: when an
/// access token exists, the refresh token is renewed if it is in its last day
/// and the access token is replaced by a fresh one valid for four hours.
pub struct TokenCheck {
    pub secret: String,
    pub user_key: String,
    pub client_id: String,
    pub user_id: String,
    pub tenant_id: String,
    pub email: String,
    pub exp_access_token: usize,
    pub exp_refresh_token: usize,
    pub now: i64,
    pub now_nanos: u32,
    pub stage: TokenCheckStage,
}

/// A step of a token renewal: its answer is `Ok(true)` once the renewal is
/// done (the access token renewed, or none there to renew), or a database
/// error's text.
pub type TokenCheckStep = Step<TokenCheck, Result<bool, String>>;

/// Starts the renewal by looking up the user's access token for the
/// client.
pub fn check_and_process_tokens(
    secret_str: &str,
    user_key: &str,
    provided_client_id_for_process: &str,
    provided_user_id_for_process: &str,
    provided_tenant_id_for_process: &str,
    provided_email_for_process: &str,
    exp_access_token: usize,
    exp_refresh_token: usize,
    now: i64,
    now_nanos: u32,
) -> (step: TokenCheckStep)
    ensures
        step matches Step::Query(next, DbRequest::FindAccessToken { client_id, user_id }) && next.wf()
            && next.stage is AwaitAccessToken && client_id@ == provided_client_id_for_process@
            && user_id@ == provided_user_id_for_process@ && next.secret@ == secret_str@
            && next.user_key@ == user_key@ && next.client_id@ == provided_client_id_for_process@
            && next.user_id@ == provided_user_id_for_process@ && next.tenant_id@
            == provided_tenant_id_for_process@ && next.email@ == provided_email_for_process@
            && next.exp_access_token == exp_access_token && next.exp_refresh_token
            == exp_refresh_token && next.now == now && next.now_nanos == now_nanos,
{
    let check = TokenCheck {
        secret: secret_str.to_owned(),
        user_key: user_key.to_owned(),
        client_id: provided_client_id_for_process.to_owned(),
        user_id: provided_user_id_for_process.to_owned(),
        tenant_id: provided_tenant_id_for_process.to_owned(),
        email: provided_email_for_process.to_owned(),
        exp_access_token,
        exp_refresh_token,
        now,
        now_nanos,
        stage: TokenCheckStage::AwaitAccessToken,
    };
    Step::Query(
        check,
        DbRequest::FindAccessToken {
            client_id: provided_client_id_for_process.to_owned(),
            user_id: provided_user_id_for_process.to_owned(),
        },
    )
}

impl TokenCheck {
    /// The access token that a renewal issues.
    pub open spec fn renewed_token(&self) -> Seq<char> {
        signed_token(
            self.secret@,
            token_claims(self.user_id@, self.email@, self.tenant_id@, self.exp_access_token),
        )
    }

    /// Same request and user as `other`.
    pub open spec fn same_context(&self, other: &TokenCheck) -> bool {
        &&& self.secret@ == other.secret@
        &&& self.user_key@ == other.user_key@
        &&& self.client_id@ == other.client_id@
        &&& self.user_id@ == other.user_id@
        &&& self.tenant_id@ == other.tenant_id@
        &&& self.email@ == other.email@
        &&& self.exp_access_token == other.exp_access_token
        &&& self.exp_refresh_token == other.exp_refresh_token
        &&& self.now == other.now
        &&& self.now_nanos == other.now_nanos
    }

    /// The stage holds only what the renewal put there.
    pub open spec fn wf(&self) -> bool {
        self.stage matches TokenCheckStage::AwaitAccessUpdate { token } ==> token@
            == self.renewed_token()
    }

    /// `step` rewrites access token `access_token_id` with the renewed token,
    /// valid for four hours from `now`, or gives up when that time is out of
    /// range.
    pub open spec fn is_access_update(&self, access_token_id: Seq<char>, step: TokenCheckStep) -> bool {
        if self.now + 4 * hour() > i64::MAX {
            step is Abort
        } else {
            step matches Step::Query(next, DbRequest::UpdateAccessToken { id, token, expires_at, expires_at_nanos })
                && id@ == access_token_id && token@ == self.renewed_token() && expires_at_nanos == self.now_nanos
                && expires_at
                == self.now + 4 * hour() && next.same_context(self) && next.wf()
                && (next.stage matches TokenCheckStage::AwaitAccessUpdate { token: t } && t@
                == token@)
        }
    }

    fn with_stage(&self, stage: TokenCheckStage) -> (next: TokenCheck)
        ensures
            next.same_context(self),
            next.stage == stage,
    {
        TokenCheck {
            secret: copy_string(&self.secret),
            user_key: copy_string(&self.user_key),
            client_id: copy_string(&self.client_id),
            user_id: copy_string(&self.user_id),
            tenant_id: copy_string(&self.tenant_id),
            email: copy_string(&self.email),
            exp_access_token: self.exp_access_token,
            exp_refresh_token: self.exp_refresh_token,
            now: self.now,
            now_nanos: self.now_nanos,
            stage,
        }
    }

    fn update_access(&self, access_token_id: String) -> (step: TokenCheckStep)
        ensures
            self.is_access_update(access_token_id@, step),
    {
        let token = generate_token(
            self.secret.as_str(),
            self.user_id.as_str(),
            self.email.as_str(),
            self.tenant_id.as_str(),
            self.exp_access_token,
        );
        let expires_at = match self.now.checked_add(4 * 3600) {
            Some(t) => t,
            None => return Step::Abort("access token expiry out of range".to_owned()),
        };
        let next = self.with_stage(TokenCheckStage::AwaitAccessUpdate { token: copy_string(&token) });
        Step::Query(
            next,
            DbRequest::UpdateAccessToken { id: access_token_id, token, expires_at, expires_at_nanos: self.now_nanos },
        )
    }

    /// What a step of the renewal is, for the reply it was given: the next
    /// request and stage, or the answer.
    pub open spec fn resume_post(&self, reply: DbReply, step: TokenCheckStep) -> bool {
        &&& step matches Step::Query(next, _) ==> next.same_context(self) && next.wf()
        &&& match (self.stage, reply) {
            (TokenCheckStage::AwaitAccessToken, DbReply::AccessToken(Lookup::Found(t))) => {
                step matches Step::Query(next, DbRequest::FindRefreshToken { client_id, user_id })
                    && client_id@ == self.client_id@ && user_id@ == self.user_id@
                    && (next.stage matches TokenCheckStage::AwaitRefreshToken { access_token_id }
                    && access_token_id@ == t.id@)
            },
            (TokenCheckStage::AwaitAccessToken, DbReply::AccessToken(_)) => {
                step == Step::<TokenCheck, Result<bool, String>>::Respond(Ok(true))
            },
            (TokenCheckStage::AwaitRefreshToken { access_token_id }, DbReply::RefreshToken(Lookup::Found(r))) => {
                if r.expires_at - day() < i64::MIN || self.now + 14 * day() > i64::MAX {
                    step is Abort
                } else if refresh_due(r.expires_at, r.expires_at_nanos, self.now, self.now_nanos) {
                    step matches Step::Query(next, DbRequest::UpdateRefreshToken { id, token, expires_at, expires_at_nanos })
                        && id@ == r.id@ && expires_at == self.now + 14 * day() && expires_at_nanos == self.now_nanos && decrypt_spec(
                        encode_utf8(token@),
                        self.user_key@,
                    ) == Ok::<Seq<char>, DecryptError>(
                        signed_token(
                            self.secret@,
                            token_claims(self.user_id@, self.email@, self.tenant_id@, self.exp_refresh_token),
                        ),
                    ) && (next.stage matches TokenCheckStage::AwaitRefreshUpdate { access_token_id: a }
                        && a@ == access_token_id@)
                } else {
                    self.is_access_update(access_token_id@, step)
                }
            },
            (TokenCheckStage::AwaitRefreshToken { .. }, DbReply::RefreshToken(Lookup::NotFound)) => {
                step matches Step::Respond(Err(e)) && e@ == not_found_text()
            },
            (TokenCheckStage::AwaitRefreshToken { .. }, DbReply::RefreshToken(Lookup::Failed(t))) => {
                step matches Step::Respond(Err(e)) && e@ == t@
            },
            (TokenCheckStage::AwaitRefreshUpdate { access_token_id }, DbReply::Written(Ok(()))) => {
                self.is_access_update(access_token_id@, step)
            },
            (TokenCheckStage::AwaitAccessUpdate { token }, DbReply::Written(Ok(()))) => {
                step == Step::<TokenCheck, Result<bool, String>>::Respond(Ok(true))
            },
            (TokenCheckStage::AwaitRefreshUpdate { .. }, DbReply::Written(Err(t))) => {
                step matches Step::Respond(Err(e)) && e@ == t@
            },
            (TokenCheckStage::AwaitAccessUpdate { .. }, DbReply::Written(Err(t))) => {
                step matches Step::Respond(Err(e)) && e@ == t@
            },
            _ => step is Abort,
        }
    }

    /// Takes the database's answer to the last request.
    pub fn resume(self, reply: DbReply) -> (step: TokenCheckStep)
        requires
            self.wf(),
        ensures
            self.resume_post(reply, step),
    {
        match (&self.stage, reply) {
            (TokenCheckStage::AwaitAccessToken, DbReply::AccessToken(Lookup::Found(t))) => {
                let next = self.with_stage(TokenCheckStage::AwaitRefreshToken { access_token_id: t.id });
                let request = DbRequest::FindRefreshToken {
                    client_id: copy_string(&self.client_id),
                    user_id: copy_string(&self.user_id),
                };
                Step::Query(next, request)
            },
            (TokenCheckStage::AwaitAccessToken, DbReply::AccessToken(_)) => {
                Step::Respond(Ok(true))
            },
            (TokenCheckStage::AwaitRefreshToken { access_token_id }, DbReply::RefreshToken(found)) => {
                let decision = check_and_update_refresh_token(
                    found,
                    self.secret.as_str(),
                    self.user_id.as_str(),
                    self.email.as_str(),
                    self.tenant_id.as_str(),
                    self.exp_refresh_token,
                    self.user_key.as_str(),
                    self.now,
                    self.now_nanos,
                );
                match decision {
                    RefreshTokenCheck::Failed(e) => Step::Respond(Err(e)),
                    RefreshTokenCheck::OutOfRange => Step::Abort("refresh token expiry out of range".to_owned()),
                    RefreshTokenCheck::Fresh => self.update_access(copy_string(access_token_id)),
                    RefreshTokenCheck::Renew(request) => {
                        let next = self.with_stage(
                            TokenCheckStage::AwaitRefreshUpdate { access_token_id: copy_string(access_token_id) },
                        );
                        Step::Query(next, request)
                    },
                }
            },
            (TokenCheckStage::AwaitRefreshUpdate { access_token_id }, DbReply::Written(Ok(()))) => {
                self.update_access(copy_string(access_token_id))
            },
            (TokenCheckStage::AwaitAccessUpdate { token }, DbReply::Written(Ok(()))) => {
                Step::Respond(Ok(true))
            },
            (TokenCheckStage::AwaitRefreshUpdate { .. }, DbReply::Written(Err(e))) => Step::Respond(Err(e)),
            (TokenCheckStage::AwaitAccessUpdate { .. }, DbReply::Written(Err(e))) => Step::Respond(Err(e)),
            _ => Step::Abort("reply does not answer the request".to_owned()),
        }
    }
}

} // verus!
