[package]
name = "paab_core"
version = "0.1.0"
edition = "2021"
publish = false

[dependencies]
ureq = { version = "=2.12.1", features = ["json"] }
serde = { version = "=1.0.229", features = ["derive"] }
thiserror = "=1.0.69"
