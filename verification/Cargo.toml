[package]
name = "matrix_feed"
version = "0.1.0"
edition = "2021"
publish = false

[dependencies]
actix-web = { version = "=4.18.1", default-features = false, features = ["macros", "ws"] }
actix-ws = "=0.2.5"
awc = { version = "=3.11.0", default-features = false }
chrono = "=0.4.45"
clap = { version = "=4.6.7", features = ["derive"] }
futures-util = "=0.3.34"
handlebars = "=4.5.0"
hex = "=0.4.3"
hmac = "=0.12.1"
matrix-sdk = { version = "=0.7.1", default-features = false, features = ["rustls-tls"] }
rss = "=2.1.2"
serde = { version = "=1.0.229", features = ["derive"] }
serde_json = "=1.0.154"
sha1 = "=0.10.7"
tokio = { version = "=1.54.1", features = ["macros", "rt", "time"] }
