[package]
name = "rs162"
version = "0.1.0"
edition = "2021"
publish = false

[dependencies]
serde = { version = "=1.0.229", features = ["derive"] }
serde_json = "=1.0.154"
thiserror = "=2.0.21"
num-complex = "=0.4.6"
desperado = "*"
tokio = { version = "1", features = ["rt", "sync", "macros"] }
futures = "0.3"

[dev-dependencies]
deku = "=0.18.1"
