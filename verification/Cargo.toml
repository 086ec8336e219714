[package]
name = "csswitch_gateway"
version = "0.1.0"
edition = "2021"
publish = false

[dependencies]
base64 = "0.22"
getrandom = "0.2"
libc = "0.2"
reqwest = { version = "0.12", default-features = false, features = ["blocking", "rustls-tls", "stream"] }
rustls = { version = "0.23", default-features = false, features = ["std", "ring"] }
serde = { version = "1", features = ["derive"] }
serde_json = "1"
sha2 = "0.10"
tokio = { version = "1", features = ["rt", "rt-multi-thread", "net", "io-util", "time", "sync", "macros"] }
url = "2"
zeroize = "1"
