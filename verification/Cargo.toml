[package]
name = "webapi"
version = "0.1.0"
edition = "2021"
publish = false

[dependencies]
druid = { version = "0.8", features = ["im", "image"] }
itertools = "0.10"
once_cell = "1"
serde = { version = "1", features = ["derive", "rc"] }
serde_json = "1"
ureq = { version = "2", features = ["json"] }
