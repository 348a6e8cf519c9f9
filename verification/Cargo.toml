[package]
name = "ffs"
version = "0.1.0"
edition = "2021"
publish = false

[dependencies]
anyhow = "=1.0.104"
clap = { version = "=4.6.7", features = ["derive"] }
colored = "=2.2.0"
dialoguer = "=0.11.0"
dirs = "=5.0.1"
regex = "=1.13.1"
rhai = { version = "=1.27.0", features = ["sync"] }
serde = { version = "=1.0.229", features = ["derive"] }
shell-escape = "=0.1.5"
shell-words = "=1.1.1"
strsim = "=0.11.1"
toml = "=0.8.23"

[dev-dependencies]
tempfile = "=3.27.0"
