[package]
name = "cyrok"
version = "0.1.0"
edition = "2021"
publish = false

[dependencies]
httparse = "1"
serde = { version = "1", features = ["derive"] }
serde_json = "1"
clap = "2.33"
tokio = { version = "1", features = ["full"] }
tokio-rustls = "0.23"
rustls-pemfile = "1"
flexi_logger = "0.25"
log = "0.4"
once_cell = "1"
lazy_static = "1"
bytes = "1"
