[package]
name = "tls_boringssl"
version = "0.1.0"
edition = "2021"
publish = false

[dependencies]
boring = "4"
tokio-boring = "4"
tokio = { version = "1", features = ["time", "net", "rt", "io-util"] }
futures-util = "0.3"
pin-project-lite = "0.2"
