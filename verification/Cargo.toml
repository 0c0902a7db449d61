[package]
name = "spi_bridge"
version = "0.1.0"
edition = "2021"
publish = false

[dependencies]
anyhow = "=1.0.104"
clap = { version = "=4.6.7", features = ["derive"] }
embedded-hal = "=1.0.0"
linux-embedded-hal = "=0.5.0"
wasmtime = "=46.0.3"
wasmtime-wasi = "=46.0.3"
