[package]
name = "bpftop"
version = "0.1.0"
edition = "2021"
publish = false

[dependencies]
anyhow = "=1.0.104"
circular-buffer = "=1.2.1"
clap = { version = "=4.6.7", features = ["derive"] }
crossterm = "=0.29.0"
libbpf-rs = "=0.27.2"
libbpf-sys = "=1.7.0"
netlink-packet-core = "=0.9.0"
netlink-packet-route = "=0.33.0"
netlink-sys = "=0.9.0"
nix = { version = "=0.31.3", features = ["user"] }
procfs = "=0.18.0"
ratatui = "=0.30.2"
tracing = "=0.1.44"
tracing-journald = "=0.3.2"
tracing-subscriber = "=0.3.23"
tui-input = "=0.15.5"
