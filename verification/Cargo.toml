[package]
name = "riz"
version = "0.1.0"
edition = "2021"
publish = false

[dependencies]
actix-cors = "=0.7.2"
actix-web = "=4.18.1"
clap = { version = "=4.6.7", features = ["derive"] }
convert_case = "=0.12.0"
env_logger = "=0.11.11"
ipnet = "=2.12.2"
log = "=0.4.34"
serde = { version = "=1.0.229", features = ["derive"] }
serde_json = "=1.0.154"
serde_with = "=3.24.0"
strum = { version = "=0.28.0", features = ["derive"] }
strum_macros = "=0.28.0"
thiserror = "=2.0.21"
utoipa = { version = "=6.0.0", features = ["actix_extras", "uuid"] }
utoipa-swagger-ui = { version = "=10.0.2", features = ["actix-web", "vendored"] }
uuid = { version = "=1.29.0", features = ["v4", "serde"] }
