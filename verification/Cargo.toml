[package]
name = "wavier_keys"
version = "0.1.0"
edition = "2021"
publish = false

[dependencies]
cortex-m = "0.7"
cortex-m-rt = "0.7"
defmt = "0.3"
defmt-rtt = "0.4"
embedded-hal = "0.2"
fugit = "0.3"
panic-probe = "0.3"
rp-pico = "0.8"
usb-device = "0.2"
usbd-hid = "0.6"
