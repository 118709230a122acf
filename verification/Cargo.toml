[package]
name = "axon_desktop"
version = "0.1.0"
edition = "2021"
publish = false

[dependencies]
semver = "1"
serde_json = "1"
tokio = { version = "1", default-features = false, features = ["rt-multi-thread", "macros", "process", "time", "sync"] }
reqwest = { version = "*", default-features = false, features = ["json"] }
zip = { version = "*", default-features = false, features = ["deflate"] }
