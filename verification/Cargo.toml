[package]
name = "stockwatch"
version = "0.1.0"
edition = "2021"
publish = false

[dependencies]
colored = "2"
console = "0.15"
plotlib = "0.5"
reqwest = { version = "0.11", default-features = false, features = ["json", "rustls-tls"] }
serde = { version = "1", features = ["derive"] }
termsize = "0.1"
tokio = { version = "1", features = ["macros", "rt-multi-thread", "time"] }
