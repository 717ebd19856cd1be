[package]
name = "esp_idf_svc"
version = "0.1.0"
edition = "2021"
publish = false

[dependencies]
log = "0.4"
uncased = "0.9"
embedded-svc = "*"
enumset = "1"
num_enum = "0.7"
anyhow = "1"
esp-idf-sys = "*"
