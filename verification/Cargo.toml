[package]
name = "unsw_regression"
version = "0.1.0"
edition = "2021"
publish = false

[dependencies]
burn = { version = "=0.14.0", default-features = false, features = ["std", "train", "wgpu", "ndarray", "autodiff", "dataset"] }
serde = { version = "1", features = ["derive"] }
