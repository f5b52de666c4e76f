[package]
name = "radio"
version = "0.1.0"
edition = "2021"
publish = false

[dependencies]
cortex-m = "*"
cortex-m-rt = "*"
defmt = "*"
defmt-rtt = "*"
microbit = "*"
nrf51-hal = "*"
panic-halt = "*"
