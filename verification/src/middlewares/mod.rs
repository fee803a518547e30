pub mod verify_jwt;
