[package]
name = "ens_lookup"
version = "0.1.0"
edition = "2021"
publish = false

[dependencies]
dotenv = "0.15"
rocket = { version = "0.5", features = ["json"] }
serde_json = "1"
