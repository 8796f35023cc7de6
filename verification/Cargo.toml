[package]
name = "apiverifier"
version = "0.1.0"
edition = "2021"
publish = false

[dependencies]
anyhow = "*"
bincode = { version = "*", features = ["serde"] }
bonsai-sdk = "*"
bytemuck = "*"
hex = "*"
reqwest = { version = "*", default-features = false, features = ["blocking", "json"] }
risc0-zkvm = { version = "*", default-features = false, features = ["std"] }
serde = { version = "*", features = ["derive"] }
sha2 = "*"
