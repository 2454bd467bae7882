[package]
name = "lancedb"
version = "0.1.0"
edition = "2021"
publish = false

[dependencies]
arrow-array = "51"
arrow-schema = "51"
async-trait = "0.1"
chrono = { version = "0.4", default-features = false }
futures = "0.3"
log = "0.4"
serde = { version = "1", features = ["derive"] }
serde_json = "1"
