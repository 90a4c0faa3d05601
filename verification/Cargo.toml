[package]
name = "rcd"
version = "0.1.0"
edition = "2021"
publish = false

[dependencies]
guid-create = "=0.5.2"
chrono = "=0.4.45"
config = "=0.15.27"
substring = "=1.4.5"
rusqlite = { version = "=0.41.1", features = ["bundled", "column_decltype"] }
