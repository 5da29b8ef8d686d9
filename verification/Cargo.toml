[package]
name = "http2fifo"
version = "0.1.0"
edition = "2021"
publish = false

[dependencies]
bytes = "1"
clap = { version = "4", features = ["derive"] }
futures-util = "0.3"
reqwest = { version = "*", default-features = false, features = ["rustls", "stream"] }
rustix = { version = "1", features = ["fs"] }
tokio = { version = "1", features = ["full"] }
tokio-util = "0.7"
tracing = "0.1"
tracing-subscriber = { version = "0.3", features = ["env-filter"] }

[dev-dependencies]
tempfile = "3"
