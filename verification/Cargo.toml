[package]
name = "keyset_pagination"
version = "0.1.0"
edition = "2021"
publish = false

[dependencies]
base64 = "=0.22.1"
chrono = "=0.4.45"
log = "0.4"
serde = { version = "1", features = ["derive"] }
serde_json = "=1.0.154"
sqlx = { version = "=0.5.13", default-features = false, features = ["postgres", "chrono", "runtime-tokio-native-tls"] }
sqlx-page = "=0.5.0"
thiserror = "=1.0.39"
utoipa = { version = "=5.5.0", features = ["chrono"] }
