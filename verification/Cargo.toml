[package]
name = "modem_bringup"
version = "0.1.0"
edition = "2021"
publish = false

[dependencies]
cortex-m = { version = "=0.7.10", features = ["critical-section-single-core"] }
defmt = "=1.2.0"
defmt-rtt = "=1.3.1"
embassy-executor = { version = "=0.9.1", features = ["arch-cortex-m"] }
embassy-nrf = { version = "=0.11.0", features = ["nrf9160-s", "time-driver-rtc1", "unstable-pac"] }
embassy-time = "=0.5.1"
nrf-modem = { version = "=0.11.0", features = ["nrf9160"] }
panic-probe = "=1.0.0"
tinyrlibc = "=0.5.1"
