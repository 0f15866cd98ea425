[package]
name = "stockwatch"
version = "0.1.0"
edition = "2021"
publish = false

[dependencies]
async-trait = "*"
config = "*"
crossterm = "*"
longport = "*"
rust_decimal = "*"
serde = { version = "*", features = ["derive"] }
time = "*"
tokio = { version = "*", features = ["rt", "rt-multi-thread", "macros", "sync"] }
