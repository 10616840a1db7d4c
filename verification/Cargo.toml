[package]
name = "pico_timer"
version = "0.1.0"
edition = "2021"
publish = false

[dependencies]
cortex-m = "0.7"
cortex-m-rt = "0.7"
defmt-rtt = "0.4"
embedded-hal = { version = "0.2", features = ["unproven"] }
embedded-time = "0.12"
panic-probe = "0.3"
rp2040-boot2 = "0.2"
rp2040-hal = "0.8"
ssd1306 = "0.7"
