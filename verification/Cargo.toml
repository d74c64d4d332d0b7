[package]
name = "mad_rust"
version = "0.1.0"
edition = "2021"
publish = false

[dependencies]
bincode = "1.3"
serde = { version = "1", features = ["derive"] }
hashbrown = "0.14"
num = "0.4"
num-derive = "0.4"
tokio = { version = "1", features = ["rt-multi-thread", "macros", "net", "io-util", "time", "sync"] }
sysinfo = "0.29"
thread-priority = "1"
sudo = "0.6"
rusb = { version = "0.9", features = ["vendored"] }
enigo = "0.1"
image = { version = "0.24", default-features = false, features = ["png"] }
png = "0.17"
