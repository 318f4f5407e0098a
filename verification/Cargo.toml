[package]
name = "bundle_manifest"
version = "0.1.0"
edition = "2021"
publish = false

[dependencies]
itertools = "0.10"
serde_ini = "0.2"
thiserror = "1"
zip = { version = "0.6", default-features = false, features = ["deflate"] }
