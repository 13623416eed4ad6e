[package]
name = "crux_core"
version = "0.1.0"
edition = "2021"
publish = false

[dependencies]
heck = "=0.5.0"
bincode = "=1.3.3"
serde = { version = "=1.0.229", features = ["derive"] }
serde_json = "=1.0.154"
futures = "=0.3.34"
anyhow = "=1.0.104"
thiserror = "=2.0.21"
log = "=0.4.35"
facet = "=0.46.5"
facet_generate = "=0.22.2"
serde-reflection = "=0.6.0"
serde-generate = { version = "=0.34.1", features = ["typescript"] }
