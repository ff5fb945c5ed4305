[package]
name = "serwus"
version = "0.2.0"
edition = "2021"
publish = false

[dependencies]
actix = "=0.13.5"
actix-cors = "=0.7.2"
actix-http = "=3.19.0"
actix-multipart = "=0.7.2"
actix-web = "=4.18.1"
alcoholic_jwt = "=4091.0.0"
amiquip = "=0.4.2"
awc = "=3.11.0"
chrono = "=0.4.45"
colored = "=2.2.0"
crossbeam-channel = "=0.5.17"
diesel = { version = "=2.3.14", features = ["postgres", "r2d2"] }
dotenv = "=0.15.0"
futures = "=0.3.34"
jsonwebtoken = "=9.3.1"
log = "=0.4.34"
metrics = "=0.24.6"
metrics-exporter-prometheus = { version = "=0.18.3", default-features = false }
num_cpus = "=1.17.0"
r2d2 = "=0.8.10"
rand = "=0.9.5"
rust-argon2 = "=2.1.0"
serde = { version = "=1.0.229", features = ["derive"] }
serde_json = "=1.0.154"
tracing = "=0.1.44"
tracing-actix-web = "=0.7.25"
tracing-bunyan-formatter = "=0.3.11"
tracing-subscriber = { version = "=0.3.23", features = ["env-filter"] }
validator = "=0.18.1"
weighted-rs = "=0.1.3"
