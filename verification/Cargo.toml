[package]
name = "run_clang_tidy"
version = "0.1.0"
edition = "2021"
publish = false

[dependencies]
clap = "=4.6.7"
color-eyre = "=0.6.5"
console = "=0.15.11"
env_logger = "=0.10.2"
eyre = "=0.6.14"
globmatch = "=0.3.1"
indicatif = "=0.17.11"
log = "=0.4.34"
rayon = "=1.12.0"
schemars = "=0.8.22"
scopeguard = "=1.2.0"
serde = { version = "=1.0.229", features = ["derive"] }
serde_json = "=1.0.154"

[dev-dependencies]
regex = "=1.13.1"
