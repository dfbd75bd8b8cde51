[package]
name = "tinylang"
version = "0.1.0"
edition = "2021"
publish = false

[dependencies]
clap = { version = "=4.6.7", features = ["derive"] }
llvm-sys = { version = "=140.1.3", features = ["force-dynamic"] }
