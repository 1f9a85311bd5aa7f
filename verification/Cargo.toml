[package]
name = "rradio"
version = "0.1.0"
edition = "2021"
publish = false

[dependencies]
htmlescape = "=0.3.1"
unidecode = "=0.3.0"
substring = "=1.4.5"
string-replace-all = "=0.2.1"
rand = "=0.9.5"
chrono = "=0.4.45"
permutation = "=0.4.1"
serde = { version = "=1.0.229", features = ["derive"] }
toml = "=1.1.8"
humantime-serde = "=1.1.1"
tokio = { version = "=1.54.1", features = ["full"] }
tokio-stream = { version = "=0.1.19", features = ["sync", "time"] }
futures-util = "=0.3.34"
crossterm = { version = "=0.29.0", features = ["event-stream"] }
reqwest = { version = "=0.13.5", default-features = false }
rppal = "=0.22.1"
anyhow = "=1.0.104"
compile-time = "=0.4.0"
sys-mount = { version = "=3.1.1", default-features = false }
libc = "=0.2.191"
nix = { version = "=0.31.3", features = ["ioctl"] }
eject = "=0.1.1"
