[package]
name = "author_inherent"
version = "0.1.0"
edition = "2021"
publish = false

[dependencies]
async-trait = "=0.1.92"
frame-support = "=49.0.0"
frame-system = "=49.0.0"
log = "=0.4.34"
parity-scale-codec = { version = "=3.7.5", features = ["derive"] }
sp-inherents = "=44.0.0"
sp-runtime = "=49.0.0"
