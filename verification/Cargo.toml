[package]
name = "sprite_core"
version = "0.1.0"
edition = "2021"
publish = false

[dependencies]
embedded-graphics = "*"
embedded-hal = "*"
embedded-hal-bus = "*"
mipidsi = "*"
log = "*"
esp-hal = "*"
esp-alloc = "*"
esp-backtrace = "*"
esp-println = "*"
esp-bootloader-esp-idf = "*"
