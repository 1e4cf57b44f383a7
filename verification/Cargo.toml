[package]
name = "ultralightui"
version = "0.1.0"
edition = "2021"
publish = false

[dependencies]
png = "*"
gl = "*"
ul-next = "*"
parking_lot = "*"
serde = { version = "1", features = ["derive"] }
serde_json = "1"
arboard = { version = "*", default-features = false }
khronos-egl = { version = "*", features = ["static"] }
