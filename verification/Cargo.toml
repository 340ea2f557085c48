[package]
name = "cornix_prospector_rmk"
version = "0.1.0"
edition = "2021"
publish = false

[dependencies]
embedded-graphics = "=0.8.2"
u8g2-fonts = "=0.8.0"
embassy-time = "=0.5.1"
embassy-nrf = { version = "=0.11.0", features = ["nrf52840"] }
rmk = { version = "=0.9.0", features = ["split", "st7789"] }
static_cell = "=2.1.1"
embedded-hal = "=1.0.0"
embedded-hal-bus = { version = "=0.3.0", features = ["async"] }
