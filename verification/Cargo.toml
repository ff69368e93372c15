[package]
name = "lora-phy"
version = "0.1.0"
edition = "2021"
publish = false

[dependencies]
defmt = "0.3"
embedded-hal-async = "1.0"
heapless = "0.8"
lorawan = "*"
rand_core = { version = "0.6", default-features = false }
serde = { version = "1", default-features = false, features = ["derive"] }
