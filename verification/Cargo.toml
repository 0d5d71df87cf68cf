[package]
name = "basic_ai_engine"
version = "0.1.0"
edition = "2021"
publish = false

[dependencies]
cudarc = { version = "=0.19.10", default-features = false, features = ["std", "driver", "cublas", "nvrtc", "dynamic-loading", "cuda-12080"] }
rand = "=0.10.3"
