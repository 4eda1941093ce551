[package]
name = "pngsize"
version = "0.1.0"
edition = "2021"
publish = false

[dependencies]
hyper = { version = "0.14", features = ["http1", "server", "tcp"] }
reqwest = { version = "0.11", default-features = false }
tokio = { version = "1", features = ["macros", "net", "rt-multi-thread"] }
