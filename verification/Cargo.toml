[package]
name = "kv_bench_core"
version = "0.1.0"
edition = "2021"
publish = false

[dependencies]
sled = "0.34"
fjall = "2"
redb = "4"
blake2 = "0.10"
rand = "0.8"
uuid = { version = "1", features = ["v4"] }
zipf = "7"
sysinfo = "*"
fs_extra = "1"
chrono = "0.4"
clap = { version = "4", features = ["derive"] }
serde = { version = "1", features = ["derive"] }
serde_json = "1"
rmp-serde = "*"
scru128 = "*"
random-string = "*"
fake = { version = "*", features = ["derive", "uuid"] }
