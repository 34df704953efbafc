[package]
name = "parquet_console"
version = "0.1.0"
edition = "2021"
publish = false

[dependencies]
clap = { version = "4", features = ["derive"] }
color-eyre = "0.6"
crossterm = "0.27"
parquet = { version = "51", default-features = false }
parquet2 = { version = "0.17", default-features = false }
ratatui = "0.26"
