[package]
name = "walpipe"
version = "0.1.0"
edition = "2021"
publish = false

[dependencies]
async-trait = "=0.1.92"
chrono = "=0.4.45"
clap = { version = "=4.6.7", features = ["derive"] }
hook0-client = "=1.1.0"
lettre = { version = "=0.11.23", default-features = false, features = ["builder", "smtp-transport"] }
libpq-sys = "0.6"
native-tls = "=0.2.18"
postgres-native-tls = "=0.5.3"
reqwest = { version = "=0.12.28", default-features = false }
serde_json = "=1.0.154"
tokio = { version = "=1.54.1", features = ["full"] }
tokio-postgres = "=0.7.18"
tracing = "=0.1.44"
tracing-subscriber = { version = "=0.3.23", features = ["env-filter"] }
uuid = "=1.29.0"
