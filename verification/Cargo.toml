[package]
name = "store_actor"
version = "0.1.0"
edition = "2021"
publish = false

[dependencies]
tokio = { version = "1", features = ["sync", "rt", "rt-multi-thread", "macros", "time"] }
r2d2 = "0.8"
r2d2_sqlite = { version = "*", features = ["bundled"] }
rand = "0.8"
serde = { version = "1", features = ["derive"] }
