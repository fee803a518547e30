pub mod create_tenant;
pub mod models;
pub mod refresh_tenant_key;
