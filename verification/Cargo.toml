[package]
name = "libretune"
version = "0.1.0"
edition = "2021"
publish = false

[dependencies]
regex = "1"
serde = { version = "1", features = ["derive"] }
serde_json = "1"
reqwest = { version = "0.12", default-features = false, features = ["json", "stream", "rustls-tls"] }
tokio = { version = "1", features = ["process", "io-util", "fs", "time", "macros", "rt"] }
futures-util = "0.3"
zip = "2"
flate2 = "1"
tar = "0.4"
