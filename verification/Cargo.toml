[package]
name = "rust_ss5"
version = "0.1.0"
edition = "2021"
publish = false

[dependencies]
bytes = "1"
log = "0.4"
simple_logger = { version = "*", default-features = false }
structopt = "0.3"
tokio = { version = "1", features = ["io-util", "macros", "net", "rt-multi-thread"] }
