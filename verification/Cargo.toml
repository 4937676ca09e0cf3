[package]
name = "synapsed"
version = "0.1.0"
edition = "2021"
publish = false

[dependencies]
rumqttc = { version = "*", default-features = false }
serde = { version = "1", features = ["derive"] }
serde_json = "1"
tempfile = "3"
hostname = "*"
local-ip-address = "*"
tokio = { version = "1", features = ["rt-multi-thread", "macros", "sync"] }
tokio-stream = "*"
tonic = "*"
tonic-prost = "*"
prost = "*"
cpal = "*"
ringbuf = "*"
rodio = "*"
cxx = "*"
