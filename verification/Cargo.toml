[package]
name = "rootless_android"
version = "0.1.0"
edition = "2021"
publish = false

[dependencies]
axmldecoder = "*"
anyhow = "1"
clap = { version = "4", features = ["derive"] }
nix = { version = "*", features = ["sched", "mount", "signal", "process", "fs", "user"] }
serde = { version = "1", features = ["derive"] }
thiserror = "*"
tracing = "0.1"
tracing-subscriber = { version = "0.3", features = ["env-filter"] }
zip = { version = "*", default-features = false, features = ["deflate"] }
