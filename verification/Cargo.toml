[package]
name = "everinst"
version = "0.1.0"
edition = "2021"
publish = false

[dependencies]
serde_json = "*"
zip = { version = "*", default-features = false, features = ["deflate"] }
reqwest = { version = "*", default-features = false, features = ["blocking", "rustls-tls"] }
dirs = "*"
which = "*"
