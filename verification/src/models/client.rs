//! A client application registered under a tenant.

use vstd::prelude::*;

verus! {

/// A stored client.
pub struct Client {
    pub id: String,
    pub tenant_id: String,
    pub name: String,
    pub client_secret: String,
    pub redirect_uri: String,
}

} // verus!
