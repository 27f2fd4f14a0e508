[package]
name = "citum_schema_data"
version = "0.1.0"
edition = "2021"
publish = false

[dependencies]
serde = { version = "1", features = ["derive"] }
serde_json = "1"
unicode-normalization = "0.1"
indexmap = { version = "2", features = ["serde"] }
url = { version = "2", features = ["serde"] }
