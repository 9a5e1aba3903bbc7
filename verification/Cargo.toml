[package]
name = "affinity_launcher"
version = "0.1.0"
edition = "2021"
publish = false

[dependencies]
anyhow = "=1.0.104"
structopt = "=0.3.26"
windows = { version = "=0.52.0", features = ["Win32_Foundation", "Win32_System_Threading", "Win32_Security"] }
