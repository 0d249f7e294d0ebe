[package]
name = "black_sitizator"
version = "0.1.0"
edition = "2021"
publish = false

[dependencies]
defmt = "=1.2.0"
defmt-rtt = "=1.3.1"
embassy-executor = { version = "=0.9.1", features = ["arch-std", "executor-thread"] }
embassy-futures = "=0.1.2"
embassy-stm32 = { version = "=0.6.0", features = ["stm32h743zi", "time-driver-any"] }
embassy-sync = "=0.8.0"
embassy-time = "=0.5.1"
embassy-usb = "=0.6.0"
panic-probe = "=1.0.0"
