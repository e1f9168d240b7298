[package]
name = "network_p2p"
version = "0.1.0"
edition = "2021"
publish = false

[dependencies]
bytes = "=1.12.1"
cita_cloud_proto = "=6.7.4"
clap = { version = "=4.6.7", features = ["derive"] }
cloud-util = "=0.8.2"
crossbeam-channel = "=0.5.17"
git-version = "=0.3.9"
log = "=0.4.35"
log4rs = "=1.4.0"
parking_lot = "=0.12.5"
prost = "=0.13.5"
serde = { version = "=1.0.229", features = ["derive"] }
tentacle = { version = "=0.4.2", features = ["tls"] }
tentacle-multiaddr = "=0.3.8"
tokio = { version = "=1.54.1", features = ["full"] }
tokio-rustls = "=0.23.4"
rustls-pemfile = "1"
tokio-util = { version = "=0.7.13", features = ["codec"] }
tonic = "=0.12.3"
