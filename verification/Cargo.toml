[package]
name = "regreet"
version = "0.1.0"
edition = "2021"
publish = false

[dependencies]
anyhow = "1"
async-recursion = "1"
clap = { version = "4", features = ["derive"] }
derivative = "2"
file-rotate = "0.7"
freedesktop_entry_parser = "1.3"
greetd_ipc = { version = "0.10", features = ["sync-codec", "tokio-codec"] }
gtk4 = "0.9"
pwd = "1"
relm4 = "0.9"
serde = { version = "1", features = ["derive"] }
shlex = "1"
thiserror = "1"
tokio = { version = "1", features = ["fs", "io-util", "macros", "net", "rt-multi-thread", "time"] }
toml = "0.8"
tracing = "0.1"
tracing-appender = "0.2"
tracing-subscriber = { version = "0.3", features = ["local-time"] }
tracker = "0.2"
