[package]
name = "xacpp"
version = "0.1.0"
edition = "2021"
publish = false

[dependencies]
serde = { version = "1", features = ["derive"] }
serde_json = "1"
tokio = { version = "1", features = ["io-util", "sync", "net", "rt", "macros", "time"] }
async-trait = "0.1"
log = "0.4"
thiserror = "2"
