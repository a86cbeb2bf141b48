[package]
name = "novacl_core"
version = "0.1.0"
edition = "2021"
publish = false

[dependencies]
axum = "0.7"
base64 = "0.22"
chacha20poly1305 = "0.10"
chrono = "0.4"
dirs = "5"
dotenvy = "0.15"
fern = "0.7"
hex = "0.4"
lazy_static = "1"
log = "0.4"
once_cell = "1"
rand = "0.8"
reqwest = { version = "0.12", features = ["json"] }
serde = { version = "1", features = ["derive"] }
serde_json = "1"
sysinfo = "0.30"
thiserror = "1"
tokio = { version = "1", features = ["full"] }
toml = "0.8"
