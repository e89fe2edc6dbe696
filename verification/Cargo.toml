[package]
name = "raphy"
version = "0.1.0"
edition = "2021"
publish = false

[dependencies]
anyhow = "*"
directories = "*"
fs-err = { version = "*", features = ["tokio"] }
mdns-sd = "*"
nix = { version = "*", features = ["signal"] }
rand = "*"
serde = { version = "*", features = ["derive"] }
serde_json = "*"
shlex = "*"
slab = "*"
thiserror = "*"
tokio = { version = "*", features = ["full"] }
tokio-graceful-shutdown = "*"
tracing = "*"
tracing-subscriber = { version = "*", features = ["env-filter"] }
