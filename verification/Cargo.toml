[package]
name = "forum_client"
version = "0.1.0"
edition = "2021"
publish = false

[dependencies]
bson = "2"
serde = { version = "1", features = ["derive"] }
serde_json = "1"
ureq = { version = "2", default-features = false, features = ["json"] }
