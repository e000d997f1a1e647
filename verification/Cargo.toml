[package]
name = "wio_terminal"
version = "0.1.0"
edition = "2021"
publish = false

[dependencies]
atsamd-hal = { version = "=0.9.1", default-features = false, features = ["samd51p19a", "usb", "unproven"] }
cortex-m-rt = "=0.6.15"
ili9341 = "=0.3.0"
lis3dh = "=0.1.0"
