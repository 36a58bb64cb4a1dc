[package]
name = "chord-ws"
version = "0.1.0"
edition = "2021"
publish = false

[dependencies]
anyhow = "=1.0.104"
clap = { version = "=4.6.7", features = ["derive"] }
colored = "=3.1.1"
comfy-table = "=8.0.1"
git2 = "=0.21.0"
gix-url = "=0.32.0"
indicatif = "=0.18.6"
serde = { version = "=1.0.229", features = ["derive"] }
serde-saphyr = "=2.0.0"

[dev-dependencies]
tempfile = "=3.27.0"
