[package]
name = "tunnel_state_machine"
version = "0.1.0"
edition = "2021"
publish = false

[dependencies]
futures = "0.3"
log = "0.4"
tokio = { version = "1", default-features = false, features = ["fs", "io-util", "rt"] }
hyper = { version = "0.14", default-features = false, features = ["client", "http1"] }
