[package]
name = "pointercrate_demonlist"
version = "0.1.0"
edition = "2021"
publish = false

[dependencies]
url = "=2.5.8"
chrono = { version = "=0.4.45", default-features = false, features = ["std", "clock"] }
serde = { version = "=1.0.229", features = ["derive"] }
sqlx = { version = "=0.8.6", default-features = false, features = ["postgres", "runtime-tokio", "chrono"] }
