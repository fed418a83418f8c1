[package]
name = "lune_exec"
version = "0.1.0"
edition = "2021"
publish = false

[dependencies]
anyhow = "=1.0.104"
async-process = "=2.5.0"
blocking = "=1.7.0"
clap = { version = "=4.6.7", features = ["derive"] }
futures-lite = "=2.6.1"
hyper = "=1.12.0"
mlua = { version = "=0.10.5", features = ["luau", "luau-jit"] }
rbx_dom_weak = "=4.2.0"
reqwest = { version = "=0.12.28", default-features = false }
tokio = { version = "=1.54.1", features = ["fs", "io-std", "io-util", "rt"] }
