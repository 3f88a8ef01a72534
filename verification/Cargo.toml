[package]
name = "arpstore_client"
version = "0.1.0"
edition = "2021"
publish = false

[dependencies]
sha2 = "0.10"
serde_json = "1"
chrono = "0.4"
machineid-rs = "*"
reqwest = { version = "*", default-features = false }
