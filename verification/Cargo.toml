[package]
name = "dcspkg"
version = "0.1.0"
edition = "2021"
publish = false

[dependencies]
flate2 = "1"
tar = "0.4"
reqwest = { version = "0.12", default-features = false, features = ["blocking"] }
clap = { version = "4", features = ["derive"] }
home = "0.5"
toml = "0.8"
serde = { version = "1", features = ["derive"] }
tabular = "0.2"
