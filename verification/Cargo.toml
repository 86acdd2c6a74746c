[package]
name = "chatex_sdk_rust"
version = "0.1.0"
edition = "2021"
publish = false

[dependencies]
url = "2"
serde_json = "1"
chrono = "0.4"
serde = { version = "1", features = ["derive"] }
hyper = { version = "0.14", features = ["client", "http1", "tcp"] }
http = "0.2"
tokio = { version = "1", features = ["rt"] }
iso_currency = "*"
isocountry = "*"
isolanguage-1 = "*"
iso8601 = "*"
