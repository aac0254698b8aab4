[package]
name = "rush"
version = "0.1.0"
edition = "2021"
publish = false

[dependencies]
argon2 = "=0.6.0"
paseto = "=2.0.2"
chrono = "=0.4.45"
serde = { version = "=1.0.229", features = ["derive"] }
serde_json = "=1.0.151"
tokio = { version = "=1.53.2", features = ["full"] }
warp = { version = "=0.4.3", features = ["server"] }
sqlx = { version = "=0.8.0", default-features = false, features = ["postgres", "runtime-tokio-rustls"] }
reqwest = { version = "=0.13.5", default-features = false, features = ["json"] }
reqwest-middleware = "=0.5.2"
reqwest-retry = "=0.9.1"
clap = { version = "=4.6.7", features = ["derive"] }
dotenv = "=0.15.0"
tracing = "=0.1.44"
tracing-subscriber = { version = "=0.3.23", features = ["env-filter"] }
async-trait = "=0.1.92"
