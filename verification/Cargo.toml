[package]
name = "tradesim"
version = "0.1.0"
edition = "2021"
publish = false

[dependencies]
rand = "0.8"
rand_distr = "0.4"
chrono = "0.4"
csv = "1"
serde = { version = "1", features = ["derive"] }
plotters = "0.3"
