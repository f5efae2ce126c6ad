[package]
name = "pcli2_rig"
version = "0.1.0"
edition = "2021"
publish = false

[dependencies]
ansi-to-tui = "=8.0.1"
anyhow = "=1.0.104"
clap = { version = "=4.6.7", features = ["derive", "env"] }
crossterm = "=0.29.0"
dirs = "=7.0.0"
ratatui = "=0.30.2"
reqwest = { version = "=0.13.5", default-features = false, features = ["json"] }
rig-core = { version = "=0.44.0", default-features = false, features = ["reqwest"] }
rmcp = { version = "=3.5.1", default-features = false, features = ["client"] }
serde = { version = "=1.0.229", features = ["derive"] }
serde_json = "=1.0.151"
sysinfo = { version = "=0.39.6", default-features = false, features = ["system"] }
tokio = { version = "=1.53.2", features = ["macros", "rt-multi-thread", "sync", "time"] }
tokio-util = "=0.7.19"
toml = "=1.1.7"
tracing = "=0.1.44"
tracing-subscriber = { version = "=0.3.23", features = ["env-filter", "fmt", "registry"] }
tui-markdown = { version = "=0.3.10", default-features = false }
