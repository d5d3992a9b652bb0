[package]
name = "fcm_relay"
version = "0.1.0"
edition = "2021"
publish = false

[dependencies]
serde_json = "1"
gauth = "*"
isahc = "1"
log = "0.4"
actix-web = "4"
dotenv = "*"
env_logger = "*"
