[package]
name = "command_bridge"
version = "0.1.0"
edition = "2021"
publish = false

[dependencies]
crossfire = "=3.1.21"
log = "=0.4.34"
nvim-rs = { version = "=0.9.2", features = ["use_tokio"] }
proc-macro2 = "1"
quote = "1"
syn = { version = "1", features = ["full"] }
tokio = { version = "=1.54.1", features = ["rt", "rt-multi-thread", "macros", "sync"] }
