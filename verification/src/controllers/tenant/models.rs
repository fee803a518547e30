//! What the tenant endpoints receive and answer.

use vstd::prelude::*;

verus! {

/// A tenant registration request.
pub struct NewTenantCreate {
    pub name: String,
}

/// A registered tenant: the action taken and the sealed tenant id.
pub struct CreateTenantResponse {
    pub action: String,
    pub tenant_key: String,
}

/// A request for a fresh tenant key, carrying the client's sealed id.
pub struct RefreshRequest {
    pub client_key: String,
}

/// A refreshed tenant key.
pub struct RefreshTenantKeyResponse {
    pub action: String,
    pub tenant_key: String,
}

} // verus!
