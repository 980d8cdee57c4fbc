[package]
name = "refraction"
version = "0.1.0"
edition = "2021"
publish = false

[dependencies]
regex = "=1.13.1"
poise = "=0.6.2"
tokio = { version = "=1.54.1", features = ["macros", "rt-multi-thread", "signal", "time"] }
reqwest = { version = "=0.12.28", default-features = false, features = ["json", "rustls-tls"] }
octocrab = "=0.40.0"
redis = { version = "=1.8.1", features = ["tokio-comp"] }
redis-macros = "=1.0.1"
serde = { version = "=1.0.229", features = ["derive"] }
serde_json = "=1.0.154"
chrono = "=0.4.45"
eyre = "=0.6.14"
color-eyre = "=0.6.5"
log = "=0.4.35"
env_logger = "=0.11.11"
dotenvy = "=0.15.7"
once_cell = "=1.21.4"
async-trait = "=0.1.92"
enum_dispatch = "=0.3.13"
