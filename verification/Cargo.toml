[package]
name = "voxtral"
version = "0.1.0"
edition = "2021"
publish = false

[dependencies]
anyhow = "1"
candle-core = "*"
clap = { version = "4", features = ["derive"] }
hf-hub = { version = "0.4", default-features = false, features = ["ureq"] }
rubato = "0.16"
serde = { version = "1", features = ["derive"] }
serde_json = "1"
symphonia = "0.5"

[dev-dependencies]
byteorder = "1"
