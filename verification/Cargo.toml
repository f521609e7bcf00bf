[package]
name = "nautilus_adapters"
version = "0.1.0"
edition = "2021"
publish = false

[dependencies]
serde = { version = "1", features = ["derive"] }
serde_json = "1"
thiserror = "2"
strum = { version = "0.27", features = ["derive"] }
chrono = { version = "0.4", default-features = false, features = ["std", "serde"] }
ustr = { version = "1", features = ["serde"] }
tokio-tungstenite = { version = "*", default-features = false }
rust_decimal = { version = "1", default-features = false, features = ["std", "serde"] }
