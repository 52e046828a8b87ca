[package]
name = "klasp"
version = "0.1.0"
edition = "2021"
publish = false

[dependencies]
serde_json = { version = "=1.0.154", features = ["preserve_order"] }
quick-xml = "=0.42.0"
which = "=8.0.6"
tempfile = "=3.27.0"
clap = { version = "=4.6.7", features = ["derive"] }
anyhow = "=1.0.104"
rayon = "=1.12.0"
serde = { version = "=1.0.229", features = ["derive"] }
toml = "=1.1.8"
