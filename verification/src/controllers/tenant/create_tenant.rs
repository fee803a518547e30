//! Registering a tenant: a random id is stored with the tenant's name, and
//! the caller receives the id sealed under the service's encryption key.

use vstd::prelude::*;
use vstd::utf8::*;

pub use crate::controllers::tenant::models::{CreateTenantResponse, NewTenantCreate};
use crate::controllers::flow::{copy_string, error_response, DbReply, DbRequest, ErrorResponse, Step};
use crate::models::tenant::NewTenant;
use crate::utils::config::AppConfig;
use crate::utils::encoding::{parse_usize, parse_usize_spec};
use crate::utils::generate_random_hash::{generate_random_hash_function, is_random_id};
use crate::utils::generate_short_hash::{decrypt_spec, encrypt, DecryptError};

verus! {

/// A tenant registration waiting for its row to be stored: the service's
/// encryption key and the new tenant's id.
pub struct CreateTenant {
    pub encryption_key: String,
    pub tenant_id: String,
}

/// A step of a tenant registration.
pub type CreateTenantStep = Step<CreateTenant, Result<CreateTenantResponse, ErrorResponse>>;

/// Starts registering a tenant: 500 when `ID_SIZE` or `ENCRYPTION_KEY` is not
/// set; gives up when `ID_SIZE` is not a number of at most 64; otherwise stores
/// the tenant under a random id of `ID_SIZE` characters.
pub fn create_tenant(
    new_tenant_create: NewTenantCreate,
    id_size: Option<String>,
    encryption_key: Option<String>,
) -> (step: CreateTenantStep)
    ensures
        (id_size is None || encryption_key is None) ==> (step matches Step::Respond(Err(e)) && e.status
            == 500 && e.message@ == "Required environment variable(s) are not set"@),
        (id_size is Some && encryption_key is Some) ==> match parse_usize_spec(
            encode_utf8(id_size->Some_0@),
        ) {
            Some(n) if n <= 64 => step matches Step::Query(next, DbRequest::InsertTenant(row)) && row.name@
                == new_tenant_create.name@ && row.id@ == next.tenant_id@ && is_random_id(row.id@, n as nat) && next.encryption_key@ == encryption_key->Some_0@,
            _ => step is Abort,
        },
{
    let mut lookups: Vec<Option<String>> = Vec::new();
    lookups.push(id_size);
    lookups.push(encryption_key);
    if !AppConfig::check_vars(&lookups) {
        assert(lookups@[0] is None || lookups@[1] is None);
        return Step::Respond(Err(error_response(500, "Required environment variable(s) are not set")));
    }
    let key = lookups.pop().unwrap().unwrap();
    let size = lookups.pop().unwrap().unwrap();
    let n = match parse_usize(size.as_str()) {
        Some(n) => n,
        None => return Step::Abort("ID_SIZE is not a number".to_owned()),
    };
    if n > 64 {
        return Step::Abort("ID_SIZE is longer than a digest".to_owned());
    }
    let rand_hash = generate_random_hash_function(n);
    let row = NewTenant { id: copy_string(&rand_hash), name: new_tenant_create.name };
    Step::Query(CreateTenant { encryption_key: key, tenant_id: rand_hash }, DbRequest::InsertTenant(row))
}

impl CreateTenant {
    /// Takes the outcome of storing the tenant: 500 "Error saving new tenant"
    /// when it failed, and otherwise the tenant key, which opens under the
    /// encryption key to the new tenant's id.
    pub fn resume(self, reply: DbReply) -> (step: CreateTenantStep)
        ensures
            reply matches DbReply::Written(Ok(())) ==> (step matches Step::Respond(Ok(r)) && r.action@
                == "Created Tenant successfully!"@ && decrypt_spec(encode_utf8(r.tenant_key@), self.encryption_key@)
                == Ok::<Seq<char>, DecryptError>(self.tenant_id@)),
            reply matches DbReply::Written(Err(_)) ==> (step matches Step::Respond(Err(e)) && e.status == 500
                && e.message@ == "Error saving new tenant"@),
            !(reply is Written) ==> step is Abort,
    {
        match reply {
            DbReply::Written(Ok(())) => {
                let encrypted_text = encrypt(self.tenant_id.as_str(), self.encryption_key.as_str(), 16);
                Step::Respond(
                    Ok(CreateTenantResponse { action: "Created Tenant successfully!".to_owned(), tenant_key: encrypted_text }),
                )
            },
            DbReply::Written(Err(_)) => Step::Respond(Err(error_response(500, "Error saving new tenant"))),
            _ => Step::Abort("reply does not answer the request".to_owned()),
        }
    }
}

} // verus!
