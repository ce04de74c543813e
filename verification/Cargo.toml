[package]
name = "bindkey_esp"
version = "0.1.0"
edition = "2021"
publish = false

[dependencies]
esp-idf-svc = "0.51"
esp-idf-sys = { version = "0.36", features = ["native"] }
log = "0.4"
