[package]
name = "dispatcher"
version = "0.1.0"
edition = "2021"
publish = false

[dependencies]
anyhow = "1"
async-std = "1"
async-trait = "0.1"
chrono = { version = "0.4", features = ["serde"] }
futures = "0.3"
percent-encoding = "2"
rand = "0.8"
serde = { version = "1", features = ["derive"] }
serde_derive = "1"
serde_json = "1"
slog = "2"
sqlx = { version = "0.8", default-features = false, features = ["postgres", "runtime-async-std", "uuid", "chrono", "json", "derive"] }
svc-agent = "*"
svc-authn = "*"
svc-authz = "*"
tide = "0.16"
uuid = { version = "1", features = ["v4", "serde"] }
