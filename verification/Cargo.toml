[package]
name = "netsnmp"
version = "0.1.0"
edition = "2021"
publish = false

[dependencies]
pin-project = "1"
serde = { version = "1", features = ["derive"] }
tokio = { version = "1", features = ["macros", "net", "rt", "time"] }
