[package]
name = "term_dashboard"
version = "0.1.0"
edition = "2021"
publish = false

[dependencies]
term_size = "*"
crossterm = "*"
tokio = { version = "1", features = ["macros", "rt-multi-thread"] }
