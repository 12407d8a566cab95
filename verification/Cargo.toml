[package]
name = "pow_gate"
version = "0.1.0"
edition = "2021"
publish = false

[dependencies]
sha2 = "0.10"
rand = "0.8"
tokio = { version = "1", features = ["rt-multi-thread", "net", "io-util", "macros"] }
log = "0.4"
simple_logger = "*"
dotenv = "0.15"
