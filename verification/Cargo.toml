[package]
name = "drogue_device"
version = "0.1.0"
edition = "2021"
publish = false

[dependencies]
heapless = "=0.6.1"
embassy-stm32 = { version = "*", features = ["stm32f072rb"] }
embassy-nrf = { version = "*", features = ["nrf52840"] }
