[package]
name = "hyperion_core"
version = "0.1.0"
edition = "2021"
publish = false

[dependencies]
libdeflater = "*"
roaring = "*"
anyhow = "*"
indexmap = "*"
serde_json = "*"
uuid = "*"
reqwest = { version = "*", default-features = false }
