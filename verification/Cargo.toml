[package]
name = "emonhp"
version = "0.1.0"
edition = "2021"
publish = false

[dependencies]
embassy-executor = { version = "=0.9.1", features = ["arch-spin", "executor-thread"] }
embassy-futures = "*"
embassy-stm32 = { version = "=0.6.0", features = ["stm32g031k8", "time-driver-any", "exti"] }
embassy-sync = "*"
embassy-time = "*"
embedded-graphics = "*"
embedded-io-async = "*"
heapless = "=0.9.3"
panic-probe = "*"
ssd1306 = "*"
static_cell = "*"
