[package]
name = "active_scan"
version = "0.1.0"
edition = "2021"
publish = false

[dependencies]
byte = "*"
ieee802154 = "*"
defmt = "*"
defmt-rtt = "*"
panic-probe = "*"
embassy-executor = "*"
embassy-futures = "*"
embassy-time = "*"
embassy-nrf = "0.1"
