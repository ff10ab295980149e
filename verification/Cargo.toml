[package]
name = "beacn_lib"
version = "0.1.0"
edition = "2021"
publish = false

[dependencies]
anyhow = "1"
byteorder = "1"
enum-map = "2"
log = "0.4"
rusb = "0.9"
strum = { version = "0.26", features = ["derive"] }
