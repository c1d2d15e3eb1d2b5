[package]
name = "openebs-upgrade"
version = "0.1.0"
edition = "2021"
publish = false

[dependencies]
anyhow = "1"
async-trait = "0.1"
clap = { version = "4", features = ["derive", "env"] }
semver = "1"
tempfile = "3"
tracing = "0.1"
