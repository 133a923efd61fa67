[package]
name = "e2l-parser"
version = "0.1.0"
edition = "2021"
publish = false

[dependencies]
p256 = { version = "0.13", features = ["ecdh"] }
sha2 = "0.10"
base64 = "0.21"
hex = "0.4"
serde = { version = "1", features = ["derive"] }
serde_derive = "1"
serde_json = "1"
tokio = { version = "1", features = ["rt-multi-thread", "macros"] }
futures = "0.3"
paho-mqtt = "0.12"
reqwest = { version = "0.11", features = ["json"] }
sysinfo = "0.29"
dotenv = "0.15"
gethostname = "0.4"
rand = "0.7"
ordered-float = "3"
