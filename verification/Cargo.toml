[package]
name = "esp_idf_async_wifi"
version = "0.1.0"
edition = "2021"
publish = false

[dependencies]
anyhow = "1"
channel-bridge = "0.6"
edge-executor = "0.4"
embassy-futures = "0.1"
embassy-sync = "0.3"
embassy-time = "0.1"
embedded-svc = { version = "0.26", default-features = false, features = ["alloc"] }
esp-idf-hal = "0.42"
esp-idf-svc = "0.47"
esp-idf-sys = "0.33"
heapless = "=0.7.17"
log = "0.4"
serde = { version = "1", default-features = false, features = ["derive"] }
