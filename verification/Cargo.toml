[package]
name = "jueming"
version = "0.1.0"
edition = "2021"
publish = false

[dependencies]
uuid = { version = "=1.29.0", features = ["v7"] }
encoding_rs = "=0.8.44"
chardetng = "=1.0.0"
subtle = "=2.6.1"
sha2 = "=0.10.9"
reqwest = { version = "=0.12.28", default-features = false }
serde = { version = "=1.0.229", features = ["derive"] }
serde_json = "=1.0.154"
thiserror = "=2.0.21"
chrono = { version = "=0.4.45", default-features = false, features = ["clock"] }
regex = "=1.13.1"

[dev-dependencies]
