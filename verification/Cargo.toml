[package]
name = "arbitration"
version = "0.1.0"
edition = "2021"
publish = false

[dependencies]
bounded-collections = "*"
frame-support = "*"
frame-system = "*"
parity-scale-codec = "*"
scale-info = "*"
serde = { version = "*", features = ["derive"] }
serde_json = "*"
sp-arithmetic = "*"
sp-core = "*"
sp-runtime = "*"
