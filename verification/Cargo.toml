[package]
name = "bintrade_egui"
version = "0.1.2"
edition = "2021"
publish = false

[dependencies]
anyhow = "1"
binance-rs-async = { version = "1.3", default-features = false }
bincode = "2"
chrono = "0.4"
color-backtrace = "0.7"
egui = { version = "0.32", default-features = false, features = ["default_fonts"] }
egui_extras = { version = "0.32", default-features = false, features = ["datepicker"] }
egui_plot_bintrade = { version = "0.33", default-features = false }
egui_tiles = { version = "0.13", default-features = false }
env_logger = { version = "0.11", default-features = false }
futures = "0.3"
magic-crypt = "4"
reqwest = { version = "0.12", default-features = false }
serde = { version = "1", features = ["derive"] }
serde_json = "1"
sqlx = { version = "0.8", default-features = false, features = ["sqlite", "runtime-tokio", "chrono"] }
tokio = { version = "1", features = ["rt-multi-thread", "macros", "sync", "time", "fs", "io-util"] }
tokio-util = "0.7"
tracing = "0.1"
tracing-subscriber = { version = "0.3", features = ["env-filter"] }
websockets = "0.3"
