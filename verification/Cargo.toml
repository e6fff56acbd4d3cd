[package]
name = "ctl_dash"
version = "0.1.0"
edition = "2021"
publish = false

[dependencies]
zbus = "*"
tokio = { version = "*", features = ["macros", "rt-multi-thread", "process", "time"] }
open = "*"
