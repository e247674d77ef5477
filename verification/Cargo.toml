[package]
name = "smart_energy_explorer"
version = "0.1.0"
edition = "2021"
publish = false

[dependencies]
chrono = "=0.4.45"
diesel = { version = "=2.3.14", features = ["sqlite", "chrono"] }
diesel_migrations = "=2.3.2"
git-version = "*"
glowmarkt = "*"
keyring = "=3.6.3"
log = "=0.4.34"
n3rgy_consumer_api_client = "*"
ollama-rs = "*"
paho-mqtt = "*"
serde = { version = "=1.0.229", features = ["derive"] }
serde_json = "=1.0.154"
sqlx = { version = "*", default-features = false, features = ["sqlite", "runtime-tokio"] }
thiserror = "=1.0.69"
time = "=0.3.55"
tokio = { version = "=1.54.1", features = ["sync", "time", "macros", "rt"] }
tokio-stream = "=0.1.19"
uuid = { version = "=1.29.0", features = ["v4"] }
