[package]
name = "trillium_ructe"
version = "0.1.0"
edition = "2021"
publish = false

[dependencies]
trillium = "=0.2.20"

[dev-dependencies]
trillium-testing = "=0.5.4"
