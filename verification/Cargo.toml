[package]
name = "line_latency"
version = "0.1.0"
edition = "2021"
publish = false

[dependencies]
chrono = { version = "0.4", default-features = false, features = ["std", "now"] }
clap = { version = "4", default-features = false, features = ["std", "derive", "help", "usage", "error-context"] }
colored = "2"
duration-string = "*"
