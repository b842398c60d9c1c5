[package]
name = "safeexec"
version = "0.1.0"
edition = "2021"
publish = false

[dependencies]
byte-unit = { version = "=4.0.19", default-features = false, features = ["std"] }
clap = { version = "=4.6.7", features = ["derive"] }
nanoid = "=0.4.0"
nix = { version = "=0.29.0", features = ["mount", "sched", "signal", "process", "user", "fs", "hostname"] }
serde = { version = "=1.0.229", features = ["derive"] }
tempfile = "=3.27.0"
thiserror = "=1.0.69"
