[package]
name = "lineup"
version = "0.1.0"
edition = "2021"
publish = false

[dependencies]
regex = "=1.13.1"
serde = { version = "=1.0.229", features = ["derive"] }
serde_json = "=1.0.151"
serde_yaml = "=0.9.34"
toml = "=1.1.7"
csv = "=1.4.0"
tera = "=2.4.0"
clap = { version = "=4.6.7", features = ["derive"] }
clap_complete = "=4.6.11"
inquire = "=0.9.4"
file-lock = "=2.1.11"
shellexpand = "=3.1.2"
