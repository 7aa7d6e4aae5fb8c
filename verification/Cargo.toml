[package]
name = "ntk"
version = "0.5.0"
edition = "2021"
publish = false

[dependencies]
rand = "0.9"
pnet = "0.35"
url = "2"
serde_json = "1"
clap = { version = "4", features = ["derive"] }
tokio = { version = "1", features = ["full"] }
reqwest = { version = "0.12", default-features = false, features = ["json", "stream", "rustls-tls"] }
futures-util = "0.3"
dns-lookup = "2"
netdev = "*"
pcap = "2"
netlink-packet-core = "*"
netlink-packet-route = "*"
netlink-sys = "*"
