[package]
name = "remote_pad"
version = "0.1.0"
edition = "2021"
publish = false

[dependencies]
cyw43 = { version = "0.1", features = ["defmt"] }
defmt = "0.3"
defmt-rtt = "0.4"
embassy-executor = { version = "0.5", features = ["integrated-timers", "defmt"] }
embassy-futures = "0.1"
embassy-net = { version = "0.4", features = ["tcp", "dhcpv4", "medium-ethernet", "defmt"] }
embassy-sync = "=0.5.0"
embassy-time = { version = "0.3", features = ["defmt"] }
embedded-io-async = "0.6"
panic-probe = { version = "0.3", features = ["print-defmt"] }
static_cell = "2"
