[package]
name = "qor_com"
version = "0.1.0"
edition = "2021"
publish = false

[dependencies]
iceoryx2 = "*"
iceoryx2-bb-container = "*"
rumqttc = "*"
serde = { version = "*", features = ["derive"] }
serde_json = "*"
