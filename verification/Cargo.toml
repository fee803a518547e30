[package]
name = "auth_service"
version = "0.1.0"
edition = "2021"
publish = false

[dependencies]
jwt = "0.16"
hmac = "0.12"
sha2 = "0.10"
rand = "0.8"
serde = { version = "1", features = ["derive"] }
serde_json = { version = "1", features = ["preserve_order"] }
chrono = "0.4"
dotenvy = "0.15"
diesel = { version = "2", features = ["chrono"] }
diesel-async = { version = "0.5", features = ["mysql"] }
rocket = { version = "0.5", features = ["json"] }
