[package]
name = "hearthstone"
version = "0.1.0"
edition = "2021"
publish = false

[dependencies]
log = "=0.3.9"
serde = "=0.8.23"
serde_xml = "=0.9.1"
