[package]
name = "procmand"
version = "0.1.0"
edition = "2021"
publish = false

[dependencies]
anyhow = "1"
env_logger = "*"
fork = "*"
futures = "0.3"
interprocess = "2"
log = "0.4"
netlink-packet-route = "*"
nix = { version = "*", features = ["sched", "mount", "user", "fs", "hostname", "process"] }
rtnetlink = "*"
serde = { version = "1", features = ["derive"] }
serde_json = "1"
tokio = { version = "1", features = ["macros", "rt-multi-thread"] }
