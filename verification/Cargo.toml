[package]
name = "daemon_desktop"
version = "0.1.0"
edition = "2021"
publish = false

[dependencies]
serde = { version = "1", features = ["derive"] }
serde_json = "1"
reqwest = { version = "0.12", default-features = false, features = ["json", "stream"] }
tokio = { version = "1", features = ["process", "io-util", "rt", "time", "sync"] }
futures-util = { version = "0.3", default-features = false, features = ["std"] }
sysinfo = { version = "*", default-features = false, features = ["system", "disk"] }
dirs = "*"
