[package]
name = "omnistat"
version = "0.1.0"
edition = "2021"
publish = false

[dependencies]
anyhow = "=1.0.104"
async-trait = "=0.1.92"
bincode = "=2.0.1"
chrono = "=0.4.45"
chrono-tz = "=0.10.4"
reqwest = { version = "=0.13.5", default-features = false, features = ["json"] }
reqwest-leaky-bucket = "=0.5.0"
reqwest-middleware = "=0.5.2"
reqwest-retry = "=0.9.1"
sea-orm = { version = "=2.0.4", default-features = false, features = ["macros", "with-chrono"] }
sea-orm-migration = { version = "=2.0.4", default-features = false }
serde = { version = "=1.0.229", features = ["derive"] }
thiserror = "=2.0.21"
tokio = { version = "=1.53.2", features = ["rt-multi-thread", "macros", "signal", "io-util"] }
tokio-cron-scheduler = "=0.15.1"
toml = "=1.1.7"
tracing = "=0.1.44"
tracing-subscriber = { version = "=0.3.23", features = ["env-filter"] }
url = "=2.5.8"
zstd = "=0.14.0"
