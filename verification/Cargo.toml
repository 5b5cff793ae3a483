[package]
name = "polars_etl"
version = "0.1.0"
edition = "2021"
publish = false

[dependencies]
axum = "*"
serde = { version = "*", features = ["derive"] }
serde_json = "*"
shuttle-axum = "*"
shuttle-runtime = "*"
tower-http = { version = "*", features = ["cors"] }
