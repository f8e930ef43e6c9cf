[package]
name = "zbx_np"
version = "0.1.0"
edition = "2021"
publish = false

[dependencies]
actix-web = "4"
actix-cors = "0.7"
actix-web-httpauth = "0.8"
base64 = "0.21"
chrono = "0.4"
crossbeam-channel = "0.5"
lazy_static = "1"
once_cell = "1"
rumqttc = "0.24"
serde = { version = "1", features = ["derive"] }
serde_json = "1"
tokio = { version = "1", features = ["full"] }
url = "2"
uuid = { version = "1", features = ["v4"] }
websocket = { version = "0.27", default-features = false, features = ["sync"] }
