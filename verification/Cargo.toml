[package]
name = "zenodo_dl_core"
version = "0.1.0"
edition = "2021"
publish = false

[dependencies]
md-5 = "*"
reqwest = { version = "*", default-features = false, features = ["stream"] }
tokio = { version = "*", features = ["macros", "rt-multi-thread"] }
futures-util = "*"
indicatif = "*"
clap = { version = "*", features = ["derive"] }
serde = { version = "*", features = ["derive"] }
serde_json = "*"
