//! Refreshing a tenant key: a client presents its sealed id and receives its
//! tenant's id sealed afresh.

use vstd::prelude::*;
use vstd::utf8::*;

pub use crate::controllers::tenant::models::{RefreshRequest, RefreshTenantKeyResponse};
use crate::controllers::flow::{error_response, DbReply, DbRequest, ErrorResponse, Lookup, Step};
use crate::utils::config::AppConfig;
use crate::utils::generate_short_hash::{decrypt, decrypt_spec, encrypt, DecryptError};

verus! {

/// A tenant key refresh waiting for the client: the service's encryption key.
pub struct RefreshTenant {
    pub encryption_key: String,
}

/// A step of a tenant key refresh.
pub type RefreshTenantStep = Step<RefreshTenant, Result<RefreshTenantKeyResponse, ErrorResponse>>;

/// Starts a tenant key refresh: 500 when `ENCRYPTION_KEY` is not set; gives up
/// when the client key does not open under it; otherwise looks up the client
/// whose id it holds.
pub fn refresh_tenant(refresh_token: RefreshRequest, encryption_key: Option<String>) -> (step: RefreshTenantStep)
    ensures
        encryption_key is None ==> (step matches Step::Respond(Err(e)) && e.status == 500 && e.message@
            == "Required environment variable(s) are not set"@),
        encryption_key matches Some(key) ==> match decrypt_spec(encode_utf8(refresh_token.client_key@), key@) {
            Ok(client_id) => step matches Step::Query(next, DbRequest::FindClient { id }) && id@ == client_id
                && next.encryption_key@ == key@,
            Err(_) => step is Abort,
        },
{
    let mut lookups: Vec<Option<String>> = Vec::new();
    lookups.push(encryption_key);
    if !AppConfig::check_vars(&lookups) {
        assert(lookups@[0] is None);
        return Step::Respond(Err(error_response(500, "Required environment variable(s) are not set")));
    }
    let key = lookups.pop().unwrap().unwrap();
    match decrypt(refresh_token.client_key.as_str(), key.as_str()) {
        Ok(client_id) => Step::Query(RefreshTenant { encryption_key: key }, DbRequest::FindClient { id: client_id }),
        Err(_) => Step::Abort("client key does not decrypt".to_owned()),
    }
}

impl RefreshTenant {
    /// Takes the client that the lookup found: its tenant id sealed afresh, or
    /// 500 when the lookup found nothing or failed.
    pub fn resume(self, reply: DbReply) -> (step: RefreshTenantStep)
        ensures
            reply matches DbReply::Client(Lookup::Found(client)) ==> (step matches Step::Respond(Ok(r)) && r.action@
                == "Tenant key refreshed"@ && decrypt_spec(encode_utf8(r.tenant_key@), self.encryption_key@)
                == Ok::<Seq<char>, DecryptError>(client.tenant_id@)),
            (reply matches DbReply::Client(found) && !(found is Found)) ==> (step matches Step::Respond(Err(e))
                && e.status == 500 && e.message@ == "Error saving new client: Error saving new client"@),
            !(reply is Client) ==> step is Abort,
    {
        match reply {
            DbReply::Client(Lookup::Found(client_query)) => {
                let encrypted_text = encrypt(client_query.tenant_id.as_str(), self.encryption_key.as_str(), 16);
                Step::Respond(Ok(RefreshTenantKeyResponse { action: "Tenant key refreshed".to_owned(), tenant_key: encrypted_text }))
            },
            DbReply::Client(_) => Step::Respond(
                Err(error_response(500, "Error saving new client: Error saving new client")),
            ),
            _ => Step::Abort("reply does not answer the request".to_owned()),
        }
    }
}

} // verus!
