[package]
name = "empty_status"
version = "0.1.0"
edition = "2021"
publish = false

[dependencies]
tokio = { version = "=1.53.2", features = ["full"] }
serde = { version = "=1.0.229", features = ["derive"] }
serde_json = "=1.0.151"
anyhow = "=1.0.104"
toml = "=1.1.7"
xdg = "=3.0.0"
chrono = "=0.4.45"
async-trait = "=0.1.92"
reqwest = { version = "=0.12.28", default-features = false }
reqwest-middleware = "=0.4.2"
route-ratelimit = "=0.1.0"
