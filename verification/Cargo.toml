[package]
name = "resas_downloader"
version = "0.1.0"
edition = "2021"
publish = false

[dependencies]
reqwest = { version = "0.11", default-features = false, features = ["blocking"] }
serde = { version = "1", features = ["derive"] }
serde_json = "1"
arrow = "53"
parquet = { version = "53", default-features = false, features = ["arrow"] }
clap = { version = "4", features = ["derive"] }
itertools = "0.12"
