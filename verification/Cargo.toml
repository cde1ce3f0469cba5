[package]
name = "zmctf_core"
version = "0.1.0"
edition = "2021"
publish = false

[dependencies]
serde_json = "1"
ureq = { version = "2", default-features = false }
eframe = { version = "*", default-features = false, features = ["glow", "x11"] }
