[package]
name = "rs_connections"
version = "0.2.1"
edition = "2021"
publish = false

[dependencies]
chrono = "=0.4.45"
websocket = { version = "=0.27.1", default-features = false, features = ["sync"] }
tokio = { version = "=1.54.1", features = ["full"] }
async-trait = "=0.1.92"
thiserror = "=2.0.21"
log = "=0.4.35"
rs-event-emitter = { version = "=3.0.3", features = ["sync"] }
