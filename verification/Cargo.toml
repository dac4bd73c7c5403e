[package]
name = "resin_printer"
version = "0.1.0"
edition = "2021"
publish = false

[dependencies]
heapless = "=0.7.17"
cortex-m = "=0.7.10"
cortex-m-rt = "=0.7.7"
embedded-graphics = "=0.8.2"
embedded-hal = "=0.2.7"
embedded-sdmmc = "=0.10.0"
embassy-executor = "=0.10.0"
embassy-stm32 = { version = "=0.6.0", features = ["stm32f407ze", "unstable-pac", "time-driver-any", "exti"] }
embassy-sync = "=0.8.0"
embassy-time = "=0.5.1"
futures = { version = "=0.3.34", default-features = false, features = ["async-await"] }
log = "=0.4.34"
num = { version = "=0.4.3", default-features = false }
rtt-target = "=0.6.2"
spi-memory = "*"
