[package]
name = "anyserver"
version = "0.1.0"
edition = "2021"
publish = false

[dependencies]
uuid = { version = "=1.29.0", features = ["v4"] }
chrono = { version = "=0.4.45", default-features = false, features = ["clock", "std"] }
serde = { version = "=1.0.229", features = ["derive"] }
serde_json = "=1.0.154"
argon2 = "=0.5.3"
glob = "=0.3.4"
walkdir = "=2.5.0"
reqwest = { version = "=0.12.28", default-features = false, features = ["json"] }
tokio = { version = "=1.54.1", features = ["process", "time", "rt-multi-thread", "macros"] }
libc = "0.2"

[dev-dependencies]
regex = "1"
