[package]
name = "feos"
version = "0.1.0"
edition = "2021"
publish = false

[dependencies]
uuid = { version = "=1.27.0", features = ["v4"] }
rand = "=0.8.8"
tokio = { version = "1", features = ["full"] }
nix = { version = "=0.29.0", features = ["mount", "signal", "process", "user", "net"] }
clap = { version = "4", features = ["derive"] }
ratatui = "*"
crossterm = "=0.29.0"
chrono = "*"
pnet = "=0.35.0"
rtnetlink = "*"
netlink-packet-route = "*"
futures = "*"

[dev-dependencies]
dhcproto = "=0.15.0"
serde_json = "1"
