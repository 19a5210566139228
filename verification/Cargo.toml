[package]
name = "depscan"
version = "0.1.0"
edition = "2021"
publish = false

[dependencies]
serde = { version = "=1.0.229", features = ["derive"] }
serde_json = "=1.0.151"
packageurl = "=0.7.1"
anyhow = "=1.0.104"
thiserror = "=2.0.21"
axum = "=0.8.9"
axum-valid = "=0.25.0"
validator = { version = "=0.20.0", features = ["derive"] }
tokio = { version = "=1.53.2", features = ["macros", "rt-multi-thread", "net", "time", "fs"] }
reqwest = { version = "=0.13.5", default-features = false, features = ["query"] }
git2 = "=0.21.0"
walkdir = "=2.5.0"
flate2 = "=1.1.10"
tar = "=0.4.46"
chrono = { version = "=0.4.45", default-features = false, features = ["clock", "serde"] }
sea-orm = { version = "=2.0.4", default-features = false, features = ["macros", "with-chrono", "with-json"] }
neo4rs = "=0.8.0"
xid = "=1.1.1"
tower-http = { version = "=0.7.1", features = ["trace", "timeout", "cors", "limit", "normalize-path", "auth"] }
tracing = "=0.1.44"
