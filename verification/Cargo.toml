[package]
name = "e2p_fileflags"
version = "0.1.0"
edition = "2021"
publish = false

[dependencies]
e2p-sys = "*"
serde = { version = "*", features = ["derive"] }
