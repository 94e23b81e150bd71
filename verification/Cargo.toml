[package]
name = "x509-client"
version = "0.1.0"
edition = "2021"
publish = false

[dependencies]
bytes = "*"
cms = "*"
http = "*"
log = "*"
openssl = "*"
reqwest = "*"
tokio = { version = "*", features = ["fs", "io-util", "macros", "rt"] }
url = "*"
