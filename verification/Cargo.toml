[package]
name = "hpmq_cli"
version = "0.1.0"
edition = "2021"
publish = false

[dependencies]
anyhow = "=1.0.104"
cargo-generate = "=0.18.5"
custom-utils = "=0.10.16"
dockerfile-parser = "=0.8.0"
kstring = "=2.0.2"
log = "=0.4.34"
serde_json = "=1.0.151"
structopt = "=0.3.26"
tokio = { version = "=1.53.2", features = ["macros", "rt-multi-thread"] }
