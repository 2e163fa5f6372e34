[package]
name = "six_step"
version = "0.1.0"
edition = "2021"
publish = false

[dependencies]
stm32g4xx-hal = { version = "*", features = ["stm32g431", "rt"] }
cortex-m-rtic = "1"
defmt = "*"
defmt-rtt = "*"
panic-halt = "*"
