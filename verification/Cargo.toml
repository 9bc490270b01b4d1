[package]
name = "rspow"
version = "0.1.0"
edition = "2021"
publish = false

[dependencies]
blake3 = "1"
equix = "*"
sha2 = "0.10"
serde = { version = "1", features = ["derive"] }
thiserror = "*"
flume = "*"
moka = { version = "*", features = ["sync"] }
left-right = "*"
