[package]
name = "coderadio"
version = "0.1.0"
edition = "2021"
publish = false

[dependencies]
clap = { version = "=4.6.7", features = ["derive"] }
crossterm = "=0.29.0"
ctrlc = "=3.5.2"
parking_lot = "=0.12.5"
reqwest = { version = "=0.12.28", default-features = false, features = ["blocking", "json", "rustls-tls"] }
rodio = { version = "=0.21.1", default-features = false, features = ["mp3"] }
serde = { version = "=1.0.229", features = ["derive"] }
