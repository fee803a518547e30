//! What the client registration endpoint receives and answers.

use vstd::prelude::*;

verus! {

/// A client registration request.
pub struct NewClientCreate {
    pub name: String,
    pub tenant_id: String,
    pub client_secret: String,
    pub redirect_uri: String,
}

/// A registered client: the action taken and the sealed key by which the
/// client refreshes its tenant key.
pub struct CreateClientResponse {
    pub action: String,
    pub tenant_key_refresher_hash: String,
}

} // verus!
