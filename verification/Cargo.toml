[package]
name = "da14531_hal"
version = "0.1.0"
edition = "2021"
publish = false

[dependencies]
cortex-m = "0.7"
da14531 = "*"
embedded-hal = { version = "0.2", features = ["unproven"] }
void = { version = "1", default-features = false }
