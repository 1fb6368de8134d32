[package]
name = "ferris_revolver"
version = "0.1.0"
edition = "2021"
publish = false

[dependencies]
cortex-m-rt = "=0.7.7"
critical-section = "=1.2.0"
defmt-rtt = "=0.4.2"
embedded-graphics = "=0.8.2"
embedded-hal = "=0.2.7"
fugit = "=0.3.9"
itoa = "=1.0.18"
panic-halt = "=0.2.0"
sh1106 = "=0.5.0"
usb-device = "=0.2.9"
usbd-serial = "=0.1.1"
waveshare-rp2040-zero = "=0.7.0"
