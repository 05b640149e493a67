[package]
name = "amitu_base"
version = "0.1.0"
edition = "2021"
publish = false

[dependencies]
serde = { version = "1", features = ["derive"] }
serde_json = "1"
failure = "0.1"
diesel = { version = "1.4", features = ["postgres"] }
r2d2 = "0.8"
r2d2-diesel = "1.0"
