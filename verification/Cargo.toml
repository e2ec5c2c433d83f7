[package]
name = "cazzmachine_lib"
version = "0.1.0"
edition = "2021"
publish = false

[dependencies]
rand = "0.8"
base64 = "0.22"
chrono = "0.4"
open = "5"
reqwest = { version = "0.12", default-features = false, features = ["rustls-tls"] }
