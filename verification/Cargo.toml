[package]
name = "opcua_tag_monitor"
version = "0.1.0"
edition = "2021"
publish = false

[dependencies]
dotenvy = "*"
kafka = { version = "*", default-features = false }
opcua = { version = "*", default-features = false, features = ["client"] }
