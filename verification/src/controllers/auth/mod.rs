pub mod signin;
pub mod signup;
pub mod verify;
