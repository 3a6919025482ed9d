[package]
name = "k04_firmware"
version = "0.1.9"
edition = "2021"
publish = false

[dependencies]
embassy-time = { version = "=0.5.1", features = ["std"] }
embassy-sync = "=0.8.0"
embassy-futures = "=0.1.2"
heapless = "=0.9.3"
trouble-host = { version = "=0.8.0", features = ["gatt", "peripheral", "security"] }
bt-hci = "=0.10.1"
embedded-hal = "=1.0.0"
embedded-hal-async = "=1.0.0"
defmt = "=1.2.0"
quote = "=1.0.47"
proc-macro2 = "=1.0.107"
syn = { version = "=3.0.9", features = ["full"] }
cortex-m = "=0.7.10"
cortex-m-rt = "=0.7.7"
embassy-nrf = { version = "=0.11.0", features = ["nrf52840", "gpiote"] }
