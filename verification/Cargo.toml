[package]
name = "users_proxy"
version = "0.1.0"
edition = "2021"
publish = false

[dependencies]
serde = { version = "1", features = ["derive"] }
serde_json = "1"
tokio = { version = "1", features = ["macros", "rt-multi-thread"] }
warp = "0.3"
reqwest = { version = "0.11", default-features = false, features = ["json"] }
hyper = { version = "0.14", features = ["server", "http1", "tcp"] }
listenfd = "1"
tracing-subscriber = "0.3"
