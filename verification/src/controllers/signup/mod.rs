pub mod create_user;
