[package]
name = "mqtt_facade"
version = "0.1.0"
edition = "2021"
publish = false

[dependencies]
rumqttc = "=0.25.1"
tokio = { version = "=1.53.2", features = ["rt", "macros", "time"] }
