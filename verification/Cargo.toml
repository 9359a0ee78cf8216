[package]
name = "myrtio_mqtt_homeassistant"
version = "0.1.0"
edition = "2021"
publish = false

[dependencies]
heapless = "*"
serde = { version = "*", default-features = false, features = ["derive"] }
serde-json-core = "*"
embassy-time = "*"
myrtio-mqtt = "*"
const-builder = "*"
