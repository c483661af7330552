[package]
name = "rustyboi_ppu"
version = "0.1.0"
edition = "2021"
publish = false

[dependencies]
libm = "=0.2.16"
serde = { version = "=1.0.229", features = ["derive"] }
serde_bytes = "=0.11.19"

[dev-dependencies]
bincode = "1.3"
