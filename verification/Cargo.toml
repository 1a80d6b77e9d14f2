[package]
name = "monoio-quiche"
version = "0.1.0"
edition = "2021"
publish = false

[dependencies]
local-sync = "=0.1.1"
monoio = "=0.2.4"
quiche = { version = "=0.20.1", default-features = false }
thiserror = "=1.0.69"
tracing = "=0.1.44"
tracing-subscriber = { version = "=0.3.23", features = ["env-filter"] }
