[package]
name = "watchrs"
version = "0.1.0"
edition = "2021"
publish = false

[dependencies]
chrono = "0.4"
rusoto_core = { version = "0.42", default-features = false, features = ["rustls"] }
rusoto_sns = { version = "0.42", default-features = false, features = ["rustls"] }
rusoto_events = { version = "0.42", default-features = false, features = ["rustls"] }

[dev-dependencies]
serde_json = "1"
