[package]
name = "container-runtime"
version = "0.1.0"
edition = "2021"
publish = false

[dependencies]
rand = "0.8"
regex = "1"
serde = { version = "1", features = ["derive"] }
serde_json = "1"
clap = { version = "4", features = ["derive"] }
nix = { version = "0.27", features = ["sched", "mount", "process", "signal", "fs", "user"] }
log = "0.4"
log4rs = "1"
dotenv = "0.15"
