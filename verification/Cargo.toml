[package]
name = "nekton"
version = "0.1.0"
edition = "2021"
publish = false

[dependencies]
regex = "1"
rdkafka = { version = "*", default-features = false }
tiny_http = "*"
serde = { version = "1", features = ["derive"] }
serde_yaml = "*"

[dev-dependencies]
duct = "*"
