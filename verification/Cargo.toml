[package]
name = "celestia_search"
version = "0.1.0"
edition = "2021"
publish = false

[dependencies]
serde_json = "1"
serde = { version = "1", features = ["derive"] }
thiserror = "*"
reqwest = { version = "*", default-features = false }
rig-core = "*"
tokio = { version = "1", features = ["macros", "rt-multi-thread"] }
