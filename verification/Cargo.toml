[package]
name = "reqwest_rate_limit"
version = "0.1.0"
edition = "2021"
publish = false

[dependencies]
governor = "=0.10.4"
http = "=1.5.0"
reqwest = { version = "=0.13.5", features = ["json", "multipart", "form", "query"] }
serde = "=1.0.229"
serde_json = "=1.0.154"
