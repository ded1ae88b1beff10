[package]
name = "komodo_logic"
version = "0.1.0"
edition = "2021"
publish = false

[dependencies]
shlex = "1"
shell-escape = "0.1"
svi = "*"
bcrypt = "*"
serde_json = "1"
urlencoding = "2"
anyhow = "1"
tokio = { version = "1", features = ["process", "io-util", "time", "rt-multi-thread", "macros", "sync"] }
bollard = "*"
sysinfo = "*"
