[package]
name = "ashell"
version = "0.1.0"
edition = "2021"
publish = false

[dependencies]
tokio = { version = "1", default-features = false, features = ["sync", "rt"] }
chrono = { version = "0.4", default-features = false, features = ["clock"] }
log = "0.4"
flexi_logger = { version = "0.27", default-features = false }
iced = { version = "0.12", default-features = false, features = ["multi-window", "tokio"] }
