[package]
name = "ogg_tag"
version = "0.1.0"
edition = "2021"
publish = false

[dependencies]
chrono = { version = "=0.4.45", default-features = false }
oggvorbismeta = "=0.2.0"
log = "=0.4.34"

[dev-dependencies]
ogg = "=0.7.1"
