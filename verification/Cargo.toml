[package]
name = "network_tunnel"
version = "0.1.0"
edition = "2021"
publish = false

[dependencies]
url = "2"
openssl = "0.10"
thrussh = "0.33"
thrussh-keys = "0.21"
tokio = { version = "1", features = ["full"] }
futures = "0.3"
async-trait = "0.1"
serde = { version = "1", features = ["derive"] }
schemars = "0.8"
tracing = "0.1"
