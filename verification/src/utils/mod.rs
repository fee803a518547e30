pub mod config;
pub mod encoding;
pub mod generate_random_hash;
pub mod generate_short_hash;
pub mod jwt;
