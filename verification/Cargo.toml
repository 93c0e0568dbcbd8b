[package]
name = "onevox"
version = "0.1.0"
edition = "2021"
publish = false

[dependencies]
anyhow = "=1.0.104"
bincode = "=1.3.3"
directories = "=5.0.1"
dirs = "=5.0.1"
handy-keys = "*"
hound = "=3.5.1"
libc = "=0.2.191"
parking_lot = "=0.12.5"
ringbuf = "=0.4.8"
rubato = "=0.15.0"
serde = { version = "=1.0.229", features = ["derive"] }
serde_json = "=1.0.154"
sysinfo = "0.32"
tempfile = "=3.27.0"
thiserror = "=1.0.69"
tokio = { version = "=1.54.1", features = ["sync", "rt", "rt-multi-thread", "net", "io-util", "time", "signal", "macros"] }
toml = "=0.8.23"
tracing = "=0.1.44"
