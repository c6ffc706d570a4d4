[package]
name = "ornithology-pi"
version = "0.1.0"
edition = "2021"
publish = false

[dependencies]
base64 = "=0.13.1"
bluer = { version = "=0.17.4", features = ["bluetoothd", "rfcomm"] }
dbus = { version = "=0.9.12", features = ["vendored"] }
futures = "=0.3.34"
image = { version = "=0.23.14", default-features = false, features = ["jpeg"] }
serde_json = "=1.0.154"
tokio = { version = "=1.54.1", features = ["io-util", "macros", "rt", "sync", "time"] }
uuid = "=1.29.0"
yew = "=0.21.0"
