[package]
name = "beetle"
version = "0.1.0"
edition = "2021"
publish = false

[dependencies]
chrono = { version = "=0.4.45", default-features = false, features = ["std", "clock", "serde"] }
semver = "=1.0.28"
serde = { version = "=1.0.229", features = ["derive"] }
serde_json = "=1.0.154"
toml = "=0.5.11"
clap = { version = "=4.6.7", features = ["derive"] }
async-std = "=1.13.2"
kramer = { version = "=3.0.0", features = ["kramer-async", "kramer-async-read", "acl"] }
uuid = { version = "=1.29.0", features = ["v4"] }
log = "=0.4.35"
env_logger = "=0.10.2"
dotenv = "=0.15.0"
anyhow = "=1.0.104"
jsonwebtoken = "=8.3.0"
image = "=0.24.9"
imageproc = "=0.23.1"
rusttype = "=0.9.3"
qrencode = "=0.14.0"
url = "=2.5.8"
flate2 = "=1.1.10"
futures-lite = "=2.6.1"
async-executor = "=1.14.1"
tar = "=0.4.46"
tide = { version = "=0.16.0", default-features = false, features = ["h1-server"] }
surf = { version = "=2.3.2", default-features = false, features = ["h1-client-rustls"] }
async-tls = "=0.10.0"
