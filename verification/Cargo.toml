[package]
name = "voike_agent"
version = "0.1.0"
edition = "2021"
publish = false

[dependencies]
anyhow = "=1.0.104"
chrono = "=0.4.45"
dotenvy = "=0.15.7"
reqwest = { version = "=0.13.5", default-features = false }
serde = { version = "=1.0.229", features = ["derive"] }
serde_json = "=1.0.151"
sysinfo = "=0.39.6"
tokio = { version = "=1.53.2", features = ["rt-multi-thread", "macros", "time"] }
uuid = { version = "=1.27.0", features = ["v4"] }
warp = { version = "=0.4.3", default-features = false, features = ["server"] }
wasmtime = "=48.0.5"
