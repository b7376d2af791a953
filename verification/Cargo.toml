[package]
name = "wasmlet"
version = "0.1.0"
edition = "2021"
publish = false

[dependencies]
wasmer = "=7.3.0"
glob = "=0.3.4"
clap = { version = "=4.6.7", features = ["derive"] }
env_logger = "=0.11.11"
log = "=0.4.34"
thiserror = "=1.0.69"
figfont = "=0.1.1"
