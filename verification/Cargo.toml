[package]
name = "stm32f4_timer"
version = "0.1.0"
edition = "2021"
publish = false

[dependencies]
atat = "0.16"
cast = { version = "0.3", default-features = false }
cortex-m = "0.7"
embedded-hal = { version = "0.2", features = ["unproven"] }
fugit = "0.3"
nb = "1"
void = { version = "1.0", default-features = false }
