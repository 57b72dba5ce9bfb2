[package]
name = "spacetrader"
version = "0.1.0"
edition = "2021"
publish = false

[dependencies]
chrono = { version = "=0.4.45", default-features = false, features = ["std"] }
tokio = { version = "=1.53.2", features = ["rt-multi-thread", "macros", "time", "sync"] }
reqwest = { version = "=0.11.27", default-features = false, features = ["json"] }
reqwest-middleware = "=0.2.5"
reqwest-retry = "=0.2.3"
task-local-extensions = "=0.1.4"
async-trait = "=0.1.92"
spacedust = "=1.1.0"
dotenv = "=0.15.0"
log = "=0.4.34"
serde_json = "1"
fern = "=0.7.1"
humantime = "=2.4.0"
