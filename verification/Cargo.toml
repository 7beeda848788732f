[package]
name = "s3_transfer"
version = "0.1.0"
edition = "2021"
publish = false

[dependencies]
aws-config = "*"
aws-credential-types = "*"
aws-sdk-s3 = "*"
base64 = "*"
mime_guess = "*"
serde = { version = "*", features = ["derive"] }
serde_json = "*"
sha2 = "*"
aes-gcm = "*"
tokio = { version = "*", features = ["rt", "rt-multi-thread", "macros", "fs", "io-util", "sync"] }
thiserror = "*"
