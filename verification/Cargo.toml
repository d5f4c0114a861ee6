[package]
name = "remote_session"
version = "0.1.0"
edition = "2021"
publish = false

[dependencies]
confy = "=2.0.0"
dirs = "=7.0.0"
mio = { version = "=1.2.4", features = ["net", "os-poll"] }
serde = { version = "=1.0.229", features = ["derive"] }
ssh2 = "=0.9.6"
