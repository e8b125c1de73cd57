[package]
name = "end_rs"
version = "0.1.0"
edition = "2021"
publish = false

[dependencies]
shlex = "*"
serde = { version = "*", features = ["derive"] }
serde_json = "*"
toml = "*"
tokio = { version = "*", features = ["rt-multi-thread", "macros", "net", "io-util", "sync", "time"] }
zbus = "*"
zvariant = "*"
icon-loader = "*"
image = { version = "*", default-features = false, features = ["png"] }
chrono = "*"
async-fs = "*"
