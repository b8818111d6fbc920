[package]
name = "mediaportal_api"
version = "0.1.0"
edition = "2021"
publish = false

[dependencies]
rand = "0.8"
actix-web = "4"
actix-cors = "0.6"
actix-easy-multipart = "3"
mysql = { version = "24", default-features = false, features = ["minimal"] }
checked_command = "0.2"
serde = { version = "1", features = ["derive"] }
serde_json = "1"
toml = "0.5"
log = "0.4"
pretty_env_logger = "0.4"
ctrlc = "3"
lazy_static = "1"
