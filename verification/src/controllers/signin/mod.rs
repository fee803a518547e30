pub mod checks;
pub mod sign_in;
