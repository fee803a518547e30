pub mod access_token;
pub mod authorization_code;
pub mod client;
pub mod refresh_token;
pub mod tenant;
pub mod user;
