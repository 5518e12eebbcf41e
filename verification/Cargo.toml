[package]
name = "fill_intent"
version = "0.1.0"
edition = "2021"
publish = false

[dependencies]
actix-web = "4"
chrono = "0.4"
radix-common = "1.3.1"
radix-transactions = "1.3.1"
rand = "0.8"
serde = { version = "1", features = ["derive"] }
