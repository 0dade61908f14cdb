[package]
name = "nix_installer"
version = "0.1.0"
edition = "2021"
publish = false

[dependencies]
async-trait = "0.1"
clap = { version = "4", features = ["derive"] }
serde = { version = "1", features = ["derive"] }
serde_json = "1"
target-lexicon = "*"
thiserror = "*"
tokio = { version = "1", features = ["fs", "process", "rt"] }
tracing = "0.1"
typetag = "0.2"

[dev-dependencies]
tempfile = "3"
