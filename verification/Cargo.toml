[package]
name = "gytm"
version = "0.1.0"
edition = "2021"
publish = false

[dependencies]
reqwest = { version = "0.12", default-features = false, features = ["cookies", "rustls-tls"] }
url = "2"
sha1_smol = "1"
serde_json = "1"
rusqlite = { version = "*", features = ["bundled"] }
dirs = "*"
tokio = { version = "1", features = ["macros", "rt-multi-thread"] }
time = { version = "0.3", features = ["formatting", "parsing", "local-offset"] }
thiserror = "2"
