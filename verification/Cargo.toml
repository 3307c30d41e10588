[package]
name = "blog"
version = "0.1.0"
edition = "2021"
publish = false

[dependencies]
bson = { version = "2", features = ["chrono-0_4"] }
chrono = "0.4"
futures = "0.3"
lazy_static = "1"
markdown = "0.3"
mongodb = { version = "2", features = ["bson-chrono-0_4"] }
poem = { version = "1", features = ["session"] }
reqwest = { version = "0.11", default-features = false, features = ["json", "rustls-tls"] }
serde = { version = "1", features = ["derive"] }
serde_derive = "1"
tera = "1"
tokio = { version = "1", features = ["rt-multi-thread", "macros"] }
tracing = "0.1"
tracing-subscriber = "0.3"
