[package]
name = "machine"
version = "0.1.0"
edition = "2021"
publish = false

[dependencies]
wasmer = "=7.0.1"
wasmer-compiler-cranelift = "=7.0.1"
wasmer-middlewares = "=7.0.1"
rapier3d = "=0.22.0"
nalgebra = "=0.33.3"
hex = "=0.4.3"
lz4_flex = "=0.11.6"
clap = { version = "=4.6.7", features = ["derive"] }
serde = { version = "=1.0.229", features = ["derive"] }
serde_json = "=1.0.154"
hyper = { version = "=0.14.32", features = ["client", "http1", "tcp"] }
tokio = { version = "=1.54.1", features = ["macros", "rt-multi-thread"] }
json = "=0.12.4"
