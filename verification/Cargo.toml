[package]
name = "jotsy"
version = "0.1.0"
edition = "2021"
publish = false

[dependencies]
sha2 = "=0.11.0"
markdown = "=1.0.0"
axum = "=0.8.9"
tower-cookies = { version = "=0.11.0", features = ["axum-core"] }
skytable = "=0.8.12"
bb8 = "=0.9.1"
log = "=0.4.34"
tokio = { version = "=1.53.2", features = ["rt-multi-thread", "macros"] }
