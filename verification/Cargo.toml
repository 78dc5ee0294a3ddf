[package]
name = "opsml_cli"
version = "0.1.0"
edition = "2021"
publish = false

[dependencies]
clap = { version = "4", features = ["derive"] }
futures-util = "0.3"
owo-colors = "3"
reqwest = { version = "0.11", features = ["json", "stream"] }
serde = { version = "1", features = ["derive"] }
serde_json = "1"
tabled = "0.14"
tokio = { version = "1", features = ["fs", "io-util", "macros", "rt-multi-thread"] }
