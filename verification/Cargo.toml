[package]
name = "orbit_db_http_client"
version = "0.1.0"
edition = "2021"
publish = false

[dependencies]
url = "2"
serde = { version = "1", features = ["derive"] }
serde_json = "1"
surf = "1"
structopt = "0.3"
async-attributes = "1"
async-std = "1"
