[package]
name = "ledger_node"
version = "0.1.0"
edition = "2021"
publish = false

[dependencies]
rust_decimal = "*"
tokio = { version = "*", features = ["full"] }
tower = { version = "*", features = ["buffer", "limit", "load-shed", "util"] }
futures = "*"
tracing = "*"
once_cell = "*"
num_cpus = "*"
sysinfo = "*"
byte-unit = "*"
rayon = "*"
git2 = "*"
