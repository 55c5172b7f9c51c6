[package]
name = "firmware_updater"
version = "0.1.0"
edition = "2021"
publish = false

[dependencies]
dfu-nusb = "0.1"
fs_extra = "1.3"
log = "0.4"
nusb = "0.1"
reqwest = { version = "0.11", features = ["json"] }
serde = { version = "1", features = ["derive"] }
sysinfo = "0.29"
