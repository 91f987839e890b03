[package]
name = "crabfin"
version = "0.1.0"
edition = "2021"
publish = false

[dependencies]
anyhow = "=1.0.104"
async-trait = "=0.1.92"
chrono = { version = "=0.4.45", features = ["serde"] }
cuid2 = "=0.1.6"
dirs = "=7.0.0"
image = { version = "=0.25.10", default-features = false, features = ["png", "jpeg"] }
material-colors = "=0.4.2"
oo7 = "=0.6.0"
reqwest = { version = "=0.12.28", default-features = false, features = ["json"] }
serde = { version = "=1.0.229", features = ["derive"] }
serde_json = "=1.0.154"
thiserror = "=2.0.21"
tokio = { version = "=1.54.1", features = ["full"] }
tracing = "=0.1.44"
tracing-subscriber = { version = "=0.3.23", features = ["env-filter"] }
wallpaper = "=3.2.0"
