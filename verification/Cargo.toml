[package]
name = "proxy_balancer"
version = "0.1.0"
edition = "2021"
publish = false

[dependencies]
anyhow = "=1.0.104"
async-sqlite = "=0.2.2"
async-trait = "=0.1.92"
chrono = { version = "=0.4.45", default-features = false, features = ["std", "now", "serde"] }
clap = { version = "=4.6.7", features = ["derive"] }
ctrlc = "=3.5.2"
dotenv = "=0.15.0"
flume = "=0.11.1"
hyper = { version = "=0.14.32", features = ["full"] }
kill_tree = { version = "0.2", features = ["tokio"] }
mime_guess = "=2.0.5"
rawsql = "=0.2.0"
serde = { version = "=1.0.229", features = ["derive"] }
serde_json = "=1.0.154"
sqlx = { version = "=0.7.4", default-features = false, features = ["runtime-tokio", "postgres", "chrono", "json", "macros"] }
sysinfo = { version = "0.30", default-features = false }
tokio = { version = "=1.54.1", features = ["full"] }
tokio_schedule = "=0.3.2"
tracing = "=0.1.44"
tracing-subscriber = { version = "=0.3.23", default-features = false, features = ["fmt", "std"] }
ulid = { version = "=1.2.1", features = ["uuid"] }
urlencoding = "=2.1.3"
uuid = "=1.29.0"
