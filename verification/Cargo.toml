[package]
name = "ssh_remote_exec"
version = "0.1.0"
edition = "2021"
publish = false

[dependencies]
ssh2 = "*"
clap = { version = "*", features = ["derive"] }
colored = "*"
thiserror = "*"
tracing = "*"
tracing-subscriber = { version = "*", features = ["env-filter"] }
