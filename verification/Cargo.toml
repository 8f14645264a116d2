[package]
name = "split_keyboard"
version = "0.1.0"
edition = "2021"
publish = false

[dependencies]
smart-leds = "=0.4.0"
nb = "=1.1.0"
embassy-executor = "=0.9.1"
embassy-sync = "=0.7.2"
embassy-time = "=0.5.1"
esp-alloc = "=0.9.0"
esp-backtrace = { version = "=0.18.1", features = ["esp32s3", "panic-handler", "println"] }
esp-bootloader-esp-idf = { version = "=0.4.0", features = ["esp32s3"] }
esp-hal = { version = "=1.0.0", features = ["esp32s3", "unstable"] }
esp-hal-smartled = { version = "=0.17.0", features = ["esp32s3"] }
esp-radio = { version = "=0.17.0", features = ["esp32s3", "wifi", "esp-now", "unstable"] }
esp-rtos = { version = "=0.2.0", features = ["esp32s3", "embassy", "esp-radio"] }
esp32_hid = "=0.1.0"
static_cell = "=2.1.1"
