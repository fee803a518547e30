pub mod create_user;
pub mod models;
