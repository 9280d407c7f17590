[package]
name = "pipe_net"
version = "0.1.0"
edition = "2021"
publish = false

[dependencies]
heapless = "=0.8.0"
log = "=0.4.35"
embassy-executor = "=0.10.0"
embassy-futures = "=0.1.2"
embassy-sync = "=0.8.0"
embassy-time = "=0.5.1"
esp-alloc = "=0.11.0"
esp-hal = { version = "=1.2.2", features = ["esp32c3", "unstable"] }
esp-rtos = { version = "=0.4.0", features = ["esp32c3", "embassy"] }
esp-println = { version = "=0.18.0", features = ["esp32c3", "log-04"] }
esp-backtrace = { version = "=0.20.0", features = ["esp32c3", "panic-handler", "println"] }
esp-bootloader-esp-idf = { version = "=0.6.0", features = ["esp32c3"] }
