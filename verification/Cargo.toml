[package]
name = "freebox_exporter"
version = "0.1.0"
edition = "2021"
publish = false

[dependencies]
prometheus_exporter = "0.8"
hmac = "0.12"
sha1 = "0.10"
regex = "1"
chrono = "0.4"
serde = { version = "1", features = ["derive"] }
serde_json = "1"
reqwest = { version = "0.12", features = ["json"] }
tokio = { version = "1", features = ["full"] }
toml = "0.8"
clap = { version = "4", features = ["derive"] }
flexi_logger = "0.29"
log = "0.4"
hostname = "0.4"
async-trait = "0.1"
lazy_static = "1"
