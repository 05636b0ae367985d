[package]
name = "usb_msc_host"
version = "0.1.0"
edition = "2021"
publish = false

[dependencies]
scsi = "=0.2.1"
embassy-usb-driver = "=0.2.2"
embassy-usb-host = "=0.1.0"
embedded-sdmmc = "=0.10.0"
defmt = "=1.2.0"
embassy-time = "=0.5.1"
# A build for the board takes `platform-cortex-m` instead of `platform-std`.
embassy-executor = { version = "=0.10.0", features = ["platform-std", "executor-thread"] }
embassy-rp = { version = "=0.10.0", features = ["rp2040"] }
defmt-rtt = "=1.3.1"
panic-probe = "=1.0.0"
