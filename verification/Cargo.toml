[package]
name = "tamer"
version = "0.1.0"
edition = "2021"
publish = false

[dependencies]
embedded-hal = "1.0"
micromath = "2"
critical-section = "1"
log = "0.4"
esp-idf-hal = "*"
esp-idf-svc = "*"
esp-idf-sys = "*"
