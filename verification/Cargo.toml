[package]
name = "aella"
version = "0.1.0"
edition = "2021"
publish = false

[dependencies]
similar = "=3.2.1"
serde = { version = "=1.0.229", features = ["derive"] }
serde_json = "=1.0.154"
clap = { version = "=4.6.7", features = ["derive"] }
colored = "=3.1.1"
dirs = "=7.0.0"
glob = "=0.3.4"
tokio = { version = "=1.54.1", features = ["macros", "rt-multi-thread"] }
turso = { version = "*", default-features = false }
