[package]
name = "atlas_cache"
version = "0.1.0"
edition = "2021"
publish = false

[dependencies]
bytes = "=1.12.1"
flate2 = "=1.1.10"
itertools = "=0.12.1"
anyhow = "1"
chrono = "0.4"
crossbeam = "0.8"
futures-util = { version = "0.3", features = ["sink"] }
ggez = { version = "0.9", default-features = false }
keyframe = "1"
keyframe_derive = "1"
moka = { version = "0.12", features = ["sync"] }
tokio = { version = "1", features = ["rt-multi-thread", "macros", "net"] }
tokio-util = { version = "0.7", features = ["codec"] }
tracing = "0.1"
tracing-subscriber = { version = "0.3", features = ["env-filter"] }
