[package]
name = "headlines"
version = "0.1.0"
edition = "2021"
publish = false

[dependencies]
url = "2"
serde = { version = "1", features = ["derive"] }
serde_json = "1"
ureq = { version = "2", features = ["json"] }
reqwest = { version = "0.11", default-features = false, features = ["rustls-tls"] }
thiserror = "1"
tracing = "0.1"
tracing-subscriber = "0.3"
confy = "0.4"
eframe = "0.15"
