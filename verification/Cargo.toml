[package]
name = "cosmic_launcher"
version = "0.1.0"
edition = "2021"
publish = false

[dependencies]
image = { version = "*", default-features = false }
clap = { version = "*", features = ["derive"] }
serde = { version = "*", features = ["derive"] }
serde_json = "*"
futures = "*"
tokio = { version = "*", features = ["sync", "rt", "macros"] }
memmap2 = "*"
rustix = { version = "*", features = ["fs"] }
