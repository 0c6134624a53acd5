[package]
name = "guerrillamail_client_c"
version = "0.1.0"
edition = "2021"
publish = false

[dependencies]
guerrillamail-client = "*"
tokio = { version = "1", features = ["rt-multi-thread"] }
