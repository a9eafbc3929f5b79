[package]
name = "stm32_cec"
version = "0.1.0"
edition = "2021"
publish = false

[dependencies]
stm32-metapac = { version = "*", features = ["stm32g071rb"] }
embassy-hal-internal = "*"
