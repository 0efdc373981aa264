[package]
name = "router"
version = "0.1.0"
edition = "2021"
publish = false

[dependencies]
serde = { version = "=1.0.229", features = ["derive"] }
serde_json = "=1.0.154"
time = { version = "=0.3.55", features = ["serde"] }
async-trait = "=0.1.92"
ring = "=0.17.14"
actix-web = { version = "=4.18.1", default-features = false }
