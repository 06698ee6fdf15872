[package]
name = "oolio151_nes"
version = "0.1.0"
edition = "2021"
publish = false

[dependencies]
sha2 = "=0.10.9"
serde = { version = "=1.0.229", features = ["derive"] }
bincode = "=1.3.3"
tempfile = "=3.27.0"
winit = "=0.30.13"
font8x8 = "=0.3.1"
softbuffer = "0.4"
