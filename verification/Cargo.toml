[package]
name = "mysql_dump"
version = "0.1.0"
edition = "2021"
publish = false

[dependencies]
sqlparser = "=0.63.0"
arrow = { version = "=60.1.0", default-features = false }
clap = { version = "=4.6.7", features = ["derive"] }
color-eyre = "=0.6.5"
crossbeam = "=0.8.5"
flate2 = "=1.1.10"
indicatif = "=0.17.11"
jemallocator = "=0.5.4"
