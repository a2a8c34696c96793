[package]
name = "engine_host"
version = "0.1.0"
edition = "2021"
publish = false

[dependencies]
base64 = "*"
ctrlc = "*"
flate2 = "*"
image = { version = "*", default-features = false, features = ["png", "jpeg"] }
kill_tree = "*"
reqwest = { version = "*", default-features = false, features = ["blocking", "rustls-tls"] }
serde = { version = "*", features = ["derive"] }
serde_json = "*"
tar = "*"
zip = { version = "*", default-features = false, features = ["deflate"] }
