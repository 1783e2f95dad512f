[package]
name = "openposterdb_api"
version = "0.1.0"
edition = "2021"
publish = false

[dependencies]
sha2 = "=0.10.9"
argon2 = "=0.5.3"
rand = "=0.9.5"
serde = { version = "=1.0.229", features = ["derive"] }
serde_json = "=1.0.154"
tokio = { version = "=1.54.1", features = ["macros", "rt-multi-thread", "time", "fs", "net", "sync"] }
axum = "=0.8.9"
reqwest = { version = "=0.12.28", default-features = false, features = ["json"] }
chrono = "=0.4.45"
jsonwebtoken = "=9.3.1"
thiserror = "=2.0.21"
tracing = "=0.1.44"
zeroize = "=1.9.1"
moka = { version = "=0.12.16", features = ["future"] }
dotenvy = "=0.15.7"
tower-http = { version = "=0.6.11", features = ["cors", "trace", "set-header", "fs"] }
tower = { version = "=0.5.3", features = ["util"] }
image = { version = "=0.25.10", default-features = false, features = ["jpeg", "png"] }
imageproc = { version = "=0.25.1", default-features = false }
ab_glyph = "=0.2.32"
tracing-subscriber = { version = "=0.3.23", features = ["env-filter"] }
