[package]
name = "rlirsh"
version = "0.1.0"
edition = "2021"
publish = false

[dependencies]
bincode = "1.3"
clap = { version = "3.2", features = ["derive"] }
color-eyre = "0.5"
derive_more = "0.99"
etc-passwd = "*"
futures-util = "0.3"
libc = "0.2"
nix = "0.20"
parking_lot = "0.11"
serde = { version = "1", features = ["derive"] }
tokio = { version = "1", features = ["full"] }
tracing = "0.1"
tracing-error = "0.1"
tracing-subscriber = "0.2"
