[package]
name = "julia_jokes"
version = "0.1.0"
edition = "2021"
publish = false

[dependencies]
futures = "0.3"
image = { version = "0.25", default-features = false, features = ["png"] }
num-complex = "0.4"
reqwest = "0.12"
tokio = { version = "1", features = ["macros", "rt-multi-thread"] }
