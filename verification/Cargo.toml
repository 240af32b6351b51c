[package]
name = "rpi_gpio"
version = "0.1.0"
edition = "2021"
publish = false

[dependencies]
serde_json = "*"
rppal = "*"
rumqttc = { version = "*", features = ["use-rustls"] }
tokio = { version = "*", features = ["macros", "rt", "time"] }
dotenvy = "*"
tracing = "*"
tracing-subscriber = { version = "*", features = ["env-filter", "fmt"] }
