[package]
name = "perf_bench"
version = "0.1.0"
edition = "2021"
publish = false

[dependencies]
chrono = "*"
clap = { version = "*", features = ["derive"] }
ctrlc = "*"
hdrhistogram = "*"
libc = "0.2"
serde = { version = "1", features = ["derive"] }
serde_json = "1"
shared_memory = "*"
tabled = "*"
