[package]
name = "bayin"
version = "0.1.0"
edition = "2021"
publish = false

[dependencies]
ringbuf = "0.4"
md5 = "0.7"
rand = "0.8"
sha2 = "0.10"
crossbeam-channel = "0.5"
rubato = "0.15"
rustfft = "6"
symphonia = { version = "0.5", features = ["all"] }
cpal = "0.15"
reqwest = { version = "0.12", features = ["blocking"] }
serde = { version = "1", features = ["derive"] }
serde_json = "1"
