[package]
name = "session_supervisor"
version = "0.1.0"
edition = "2021"
publish = false

[dependencies]
defmt = "*"
embassy-executor = "*"
embassy-futures = "*"
embassy-net = "*"
embassy-time = "*"
esp-alloc = "*"
esp-backtrace = "*"
esp-bootloader-esp-idf = "*"
esp-hal = "*"
esp-hal-embassy = "*"
esp-println = "*"
esp-wifi = "*"
rust-mqtt = "*"
static_cell = "*"
