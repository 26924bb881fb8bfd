[package]
name = "wukong_gpu"
version = "0.1.0"
edition = "2021"
publish = false

[dependencies]
half = "=2.7.1"
cudarc = { version = "=0.16.6", default-features = false, features = ["std", "driver", "cuda-12080", "dynamic-loading", "f16"] }
