[package]
name = "sport_tracker"
version = "0.1.0"
edition = "2021"
publish = false

[dependencies]
askama = "*"
askama_web = { version = "*", features = ["axum-0.8"] }
async-trait = "0.1"
axum = "0.8"
chrono = { version = "0.4", default-features = false, features = ["std", "serde"] }
serde = { version = "1", features = ["derive"] }
serde_yml = "*"
sqlx = { version = "0.8", default-features = false, features = ["sqlite", "runtime-tokio", "chrono", "derive"] }
tokio = { version = "1", features = ["rt-multi-thread", "macros", "net"] }
tower-http = { version = "0.6", features = ["fs"] }
