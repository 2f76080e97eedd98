[package]
name = "scrcpy_launcher"
version = "0.1.0"
edition = "2021"
publish = false

[dependencies]
crossterm = "=0.29.0"
dirs = "=7.0.0"
futures-util = "=0.3.34"
ratatui = "=0.30.2"
reqwest = { version = "=0.12.28", default-features = false, features = ["json", "stream", "rustls-tls"] }
semver = "=1.0.28"
serde = { version = "=1.0.229", features = ["derive"] }
serde_json = "=1.0.154"
tempfile = "=3.27.0"
tokio = { version = "=1.54.1", features = ["full"] }
winapi = { version = "=0.3.9", features = ["errhandlingapi", "handleapi", "synchapi", "winerror", "minwindef", "ntdef", "windef", "winuser"] }
zip = { version = "=9.0.5", default-features = false, features = ["deflate"] }
