[package]
name = "secretary"
version = "0.1.0"
edition = "2021"
publish = false

[dependencies]
chrono = "0.4"
oauth2 = "4"
reqwest = { version = "0.11", default-features = false, features = ["json", "multipart", "rustls-tls"] }
serde = { version = "1", features = ["derive"] }
serde_json = "1"
tempfile = "3"
tokio = { version = "1", features = ["macros", "rt-multi-thread", "fs", "time", "io-util", "sync"] }
toml = "0.8"
warp = "0.3"
webbrowser = "0.8"
