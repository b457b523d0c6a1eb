[package]
name = "lickbot2"
version = "0.1.0"
edition = "2021"
publish = false

[dependencies]
azalea = "=0.16.0"
clap = { version = "=4.6.7", features = ["derive"] }
parking_lot = { version = "=0.12.5", features = ["deadlock_detection"] }
tokio = { version = "=1.54.1", features = ["rt", "rt-multi-thread", "macros"] }
tracing = "=0.1.44"
tracing-subscriber = { version = "=0.3.23", features = ["env-filter"] }
