[package]
name = "container_core"
version = "0.1.0"
edition = "2021"
publish = false

[dependencies]
caps = "=0.5.6"
nix = { version = "=0.31.3", features = ["sched", "signal", "user", "process", "fs"] }
