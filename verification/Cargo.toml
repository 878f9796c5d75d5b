[package]
name = "eventfold"
version = "0.1.0"
edition = "2021"
publish = false

[dependencies]
uuid = { version = "=1.27.0", features = ["v4", "serde"] }
chrono = { version = "=0.4.45", features = ["serde"] }
serde = { version = "=1.0.229", features = ["derive"] }
serde_json = "=1.0.151"
sqlx = { version = "=0.9.0", default-features = false, features = ["postgres", "runtime-tokio", "json"] }
lapin = "=4.12.0"
async-trait = "=0.1.92"
log = "=0.4.34"
