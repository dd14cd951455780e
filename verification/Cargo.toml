[package]
name = "lightstrip"
version = "0.1.0"
edition = "2021"
publish = false

[dependencies]
colortemp = "*"
log = "*"
rppal = "*"
rumqttc = "*"
serde = { version = "*", features = ["derive"] }
serde_json = "*"
simple_logger = "*"
smart_led_effects = "*"
tokio = { version = "*", features = ["rt-multi-thread", "macros", "time", "sync"] }
uuid = { version = "*", features = ["v4"] }
