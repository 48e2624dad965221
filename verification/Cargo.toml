[package]
name = "json_fields"
version = "0.1.0"
edition = "2021"
publish = false

[dependencies]
serde = { version = "1", features = ["derive"] }
serde_json = "1"
serde-email = "*"
thiserror = "1"
typetag = "0.2"
uuid = "1"
