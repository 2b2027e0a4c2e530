[package]
name = "page_watch"
version = "0.1.0"
edition = "2021"
publish = false

[dependencies]
scraper = "=0.27.0"
reqwest = { version = "=0.12.28", default-features = false, features = ["rustls-tls"] }
tokio = { version = "=1.53.2", features = ["rt-multi-thread", "macros", "time"] }
notify-rust = "=4.18.2"
tray-item = { version = "=0.10.0", features = ["ksni"] }
