//! A tenant: an organisation whose users and clients are kept apart from others.

use vstd::prelude::*;

verus! {

/// A stored tenant.
pub struct Tenant {
    pub id: String,
    pub name: String,
}

/// A tenant row to insert.
pub struct NewTenant {
    pub id: String,
    pub name: String,
}

} // verus!
