[package]
name = "pfp_server"
version = "0.1.0"
edition = "2021"
publish = false

[dependencies]
rust_decimal = "=1.43.0"
chrono = "=0.4.45"
validator = "=0.12.0"
serde = { version = "=1.0.229", features = ["derive"] }
serde_json = "=1.0.154"
actix-web = { version = "=4.18.1", default-features = false, features = ["macros"] }
log = "=0.4.34"
rand = "0.8"
rust-argon2 = "*"
bson = "*"
actix-session = { version = "*", features = ["cookie-session"] }
reqwest = { version = "*", default-features = false, features = ["json"] }
dotenv = "0.15"
simple_logger = "*"
futures = "0.3"
