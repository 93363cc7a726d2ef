[package]
name = "typed-error"
version = "0.1.0"
edition = "2021"
publish = false

[dependencies]
serde = { version = "1", features = ["derive"] }
http = "1"
tonic = { version = "*", default-features = false }
axum = { version = "*", default-features = false, features = ["json"] }
