[package]
name = "jsonapi_cache"
version = "0.1.0"
edition = "2021"
publish = false

[dependencies]
serde = { version = "*", features = ["derive"] }
serde_json = "*"
serde_json_path_to_error = "*"
redis = "*"
reqwest = { version = "*", default-features = false, features = ["blocking", "json"] }
