[package]
name = "tango_bridge"
version = "0.1.0"
edition = "2021"
publish = false

[dependencies]
reqwest = { version = "=0.12.28", features = ["stream"] }
axum = { version = "=0.8.9", features = ["ws", "macros"] }
tokio = { version = "=1.54.1", features = ["full"] }
tokio-util = "=0.7.20"
tower-http = { version = "=0.6.11", features = ["cors"] }
futures-util = { version = "=0.3.34", features = ["sink"] }
http = "=1.5.0"
serde = { version = "=1.0.229", features = ["derive"] }
socket2 = "=0.5.10"
open = "=5.4.5"
ctrlc = "=3.5.2"
auto-launch = "=0.5.0"
single-instance = "=0.3.3"
image = { version = "=0.25.10", default-features = false, features = ["png"] }
tao = "=0.37.2"
tray-icon = "=0.26.1"
tracing = "0.1"
tracing-subscriber = "0.3"
core-foundation = "0.10"
