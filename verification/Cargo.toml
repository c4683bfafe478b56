[package]
name = "rotary_encoder_hal"
version = "0.6.0"
edition = "2021"
publish = false

[dependencies]
defmt = "*"
either = { version = "1", default-features = false }
embedded-hal = "1"
