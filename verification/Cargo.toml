[package]
name = "wanco"
version = "0.1.0"
edition = "2021"
publish = false

[dependencies]
anyhow = "=1.0.104"
clap = { version = "=4.6.7", features = ["derive"] }
env_logger = "=0.11.11"
inkwell = { version = "=0.11.0", features = ["llvm17-0"] }
log = "=0.4.34"
rand = "=0.10.3"
wasmparser = "=0.262.0"
wat = "=1.262.0"
