[package]
name = "wallshift"
version = "0.1.0"
edition = "2021"
publish = false

[dependencies]
anyhow = "1"
clap = { version = "4", features = ["derive"] }
clap_derive = "4"
config = { version = "0.14", default-features = false, features = ["yaml"] }
daemonize = "0.5"
dirs = "5"
rand = "0.9"
serde = { version = "1", features = ["derive"] }
serde_derive = "1"
serde_yaml = "0.9"
thiserror = "1"
