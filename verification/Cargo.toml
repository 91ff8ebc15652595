[package]
name = "pbr"
version = "0.1.0"
edition = "2021"
publish = false

[dependencies]
crossbeam-channel = "=0.5.17"
winapi = { version = "=0.3.9", features = ["wincon", "processenv", "winbase", "handleapi", "winnt"] }
