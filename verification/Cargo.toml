[package]
name = "wheel_scanner"
version = "0.1.0"
edition = "2021"
publish = false

[dependencies]
anyhow = "*"
bytes = "*"
chrono = { version = "*", features = ["serde"] }
clap = "*"
git2 = { version = "*", default-features = false }
google-cloud-storage = "*"
hex = "*"
indexmap = { version = "*", features = ["serde"] }
reqwest = { version = "*", default-features = false, features = ["rustls-tls"] }
serde = { version = "*", features = ["derive"] }
sha2 = "*"
tempfile = "*"
time = { version = "*", features = ["serde-well-known", "formatting"] }
tokio = { version = "*", features = ["rt", "rt-multi-thread", "macros"] }
toml = "*"
zip = { version = "*", default-features = false, features = ["deflate"] }
