[package]
name = "hid_gamepad"
version = "0.1.0"
edition = "2021"
publish = false

[dependencies]
cortex-m = "0.7"
embedded-graphics = "=0.7.1"
heapless = "=0.8.0"
lis3dh = "=0.3.0"
panic-halt = "=0.2.0"
usb-device = "=0.2.9"
usbd-hid = "=0.6.2"
wio_terminal = "=0.7.3"

[dev-dependencies]
serde = { version = "=1.0.229", default-features = false }
ssmarshal = { version = "=1.0.0", default-features = false }
