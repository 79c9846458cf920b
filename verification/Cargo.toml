[package]
name = "tx_guard"
version = "0.1.0"
edition = "2021"
publish = false

[dependencies]
async-convert = "=1.0.0"
async-dropper = { version = "=0.3.1", features = ["tokio", "derive"] }
deadpool-tiberius = "=0.1.9"
thiserror = "=2.0.21"
tiberius = "=0.12.3"
tokio = { version = "=1.53.2", features = ["rt-multi-thread", "time"] }
