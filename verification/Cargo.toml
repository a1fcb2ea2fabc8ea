[package]
name = "nchan"
version = "0.1.0"
edition = "2021"
publish = false

[dependencies]
maud = { version = "=0.27.0", features = ["actix-web"] }
rand = "=0.8.8"
chrono = "=0.4.45"
actix-web = "=4.18.1"
actix-files = "=0.6.10"
actix-multipart = "=0.7.2"
serde = "=1.0.229"
serde_derive = "=1.0.229"
serde_json = "=1.0.154"
welds = { version = "=0.5.2", features = ["sqlite", "migrations"] }
