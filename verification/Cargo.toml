[package]
name = "datutils"
version = "0.1.0"
edition = "2021"
publish = false

[dependencies]
anyhow = "*"
flate2 = "*"
lz4 = "*"
rmp-serde = "*"
serde = { version = "*", features = ["derive"] }
xz = "*"
zstd = "*"

[dev-dependencies]
ndarray = { version = "*", features = ["serde"] }
