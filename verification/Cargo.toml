[package]
name = "spire_agent"
version = "0.1.0"
edition = "2021"
publish = false

[dependencies]
anyhow = "=1.0.104"
async-stream = "=0.3.6"
base64 = "=0.22.1"
chrono = "=0.4.45"
clap = { version = "=4.6.7", features = ["derive", "env"] }
const-oid = { version = "=0.9.6", features = ["db"] }
der = "=0.7.10"
hyper-util = "=0.1.21"
p256 = "=0.13.2"
prost = "=0.13.5"
rcgen = "=0.14.10"
serde = { version = "=1.0.229", features = ["derive"] }
serde_json = "=1.0.154"
time = "=0.3.55"
tokio = { version = "=1.54.1", features = ["full"] }
tokio-stream = { version = "=0.1.19", features = ["net"] }
tonic = "=0.12.3"
tonic-health = "=0.12.3"
tower = { version = "=0.4.13", features = ["util"] }
x509-cert = "=0.2.5"

[dev-dependencies]
spiffe = { version = "=0.18.0", features = ["x509"] }
