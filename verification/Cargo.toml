[package]
name = "afk_resume"
version = "0.1.0"
edition = "2021"
publish = false

[dependencies]
rspotify = { version = "=0.13.3", default-features = false, features = ["client-reqwest", "reqwest-rustls-tls"] }
tokio = { version = "=1.53.2", features = ["macros", "rt-multi-thread", "time", "signal"] }
dotenv = "=0.15.0"
urlshortener = "=3.2.1"
online = "=4.0.2"
