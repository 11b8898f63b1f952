[package]
name = "collabs_code"
version = "0.1.0"
edition = "2021"
publish = false

[dependencies]
validator = "=0.16.1"
url = "2"
serde = { version = "1", features = ["derive"] }
actix-web = "4"
sea-orm = { version = "0.12", default-features = false, features = ["macros", "with-uuid"] }
openidconnect = "3"
uuid = { version = "1", features = ["v4"] }
dotenv = "0.15"
env_logger = "0.10"
log = "0.4"
config = { version = "0.13", default-features = false, features = ["toml"] }
