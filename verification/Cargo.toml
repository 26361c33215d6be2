[package]
name = "counter"
version = "0.1.0"
edition = "2021"
publish = false

[dependencies]
cosmwasm-std = { version = "0.16", features = ["iterator"] }
cw-storage-plus = "0.9"
cw-controllers = "0.9"
cw2 = "0.9"
schemars = "0.8"
serde = { version = "1.0", default-features = false, features = ["derive"] }
thiserror = "1.0"
