[package]
name = "couveuse"
version = "0.1.0"
edition = "2021"
publish = false

[dependencies]
ds18b20 = "=0.1.1"
one-wire-bus = "=0.1.1"
heapless = "=0.8.0"
embedded-hal = "=0.2.7"
embedded-hal-compat = "=0.13.0"
embedded-graphics = "=0.8.2"
embedded-dht-rs = { version = "=0.5.0", features = ["dht11"] }
ssd1306 = { version = "=0.10.0", features = ["async"] }
profont = "=0.7.0"
embassy-time = "=0.5.1"
embassy-executor = "0.10"
esp-hal = { version = "~1.1", features = ["esp32", "unstable"] }
esp-rtos = { version = "0.3", features = ["embassy", "esp32"] }
esp-println = { version = "0.17", features = ["esp32"] }
esp-bootloader-esp-idf = { version = "0.5", features = ["esp32"] }
