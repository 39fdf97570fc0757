[package]
name = "nat2"
version = "0.1.0"
edition = "2021"
publish = false

[dependencies]
stun = "*"
ring = "*"
hex = "*"
time = { version = "*", features = ["formatting"] }
url = "*"
tokio = { version = "*", features = ["full"] }
anyhow = "*"
async-trait = "*"
clap = { version = "*", features = ["derive"] }
futures = "*"
hostname = "*"
igd-next = { version = "*", features = ["aio_tokio"] }
local-ip-address = "*"
reqwest = { version = "*", default-features = false, features = ["json"] }
serde = { version = "*", features = ["derive"] }
serde_json = "*"
tracing = "*"
tracing-subscriber = { version = "*", features = ["env-filter"] }
