[package]
name = "tempus"
version = "0.3.0"
edition = "2021"
publish = false

[dependencies]
chrono = "0.4"
clap = { version = "4", features = ["derive"] }
colorgrad = "0.7"
crossterm = "0.28"
ctrlc = "3"
humantime = "2"
ratatui = "0.29"
thiserror = "1"
yansi = "1"
