[package]
name = "udp_latency"
version = "0.1.0"
edition = "2021"
publish = false

[dependencies]
better-panic = "0.3"
clap = { version = "4", features = ["derive"] }
clap-verbosity-flag = "2"
color-eyre = "0.6"
crossterm = { version = "0.27", features = ["event-stream"] }
csv = "1"
futures = "0.3"
humantime = "2"
libc = "0.2"
ratatui = "0.26"
strip-ansi-escapes = "0.2"
tokio = { version = "1", features = ["full"] }
tokio-util = "0.7"
tracing = "0.1"
tracing-log = "0.2"
tracing-subscriber = "0.3"
