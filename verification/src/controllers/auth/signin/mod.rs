pub mod generate_token;
pub mod models;
pub mod sign_in;
