[package]
name = "voyager"
version = "0.1.0"
edition = "2021"
publish = false

[dependencies]
rmk = "=0.9.0"
rmk-palettefx = { version = "=0.2.0", features = ["rmk"] }
embassy-stm32 = { version = "=0.6.0", features = ["stm32f303cb", "time-driver-any", "memory-x", "exti"] }
embassy-sync = "=0.8.0"
embassy-time = "=0.5.1"
embassy-executor = "=0.10.0"
cortex-m-rt = "=0.7.7"
panic-halt = "=1.0.0"
