pub mod auth;
pub mod client;
pub mod flow;
pub mod hello;
pub mod signin;
pub mod signup;
pub mod tenant;
