[package]
name = "grpcui"
version = "0.1.0"
edition = "2021"
publish = false

[dependencies]
http = "=1.5.0"
hex = "=0.4.3"
rand = "=0.8.8"
serde = { version = "=1.0.229", features = ["derive"] }
serde_json = "=1.0.154"
uuid = { version = "=1.29.0", features = ["v4"] }
bytes = "=1.12.1"
tokio = { version = "=1.54.1", features = ["full"] }
tonic = { version = "=0.12.3", features = ["tls", "tls-native-roots"] }
tower = { version = "=0.4.13", features = ["util"] }
http-body = "=1.1.0"
http-body-util = "=0.1.5"
sqlx = { version = "=0.8.6", default-features = false, features = ["sqlite", "runtime-tokio", "chrono", "macros"] }
chrono = "=0.4.45"
libloading = "=0.8.9"
log = "=0.4.35"
env_logger = "=0.11.11"
reqwest = { version = "=0.12.28", default-features = false }
