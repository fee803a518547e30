pub mod models;
pub mod verify;
