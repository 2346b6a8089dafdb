[package]
name = "nudm_sdm"
version = "0.1.0"
edition = "2021"
publish = false

[dependencies]
percent-encoding = "2"
url = "2"
hyper = { version = "0.14", features = ["full"] }
swagger = "6"
futures = "0.3"
serde_json = "1"
serde_ignored = "0.1"
log = "0.4"

[dev-dependencies]
regex = "1"
