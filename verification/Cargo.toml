[package]
name = "mssql_bridge"
version = "0.1.0"
edition = "2021"
publish = false

[dependencies]
anyhow = "1"
futures-util = "0.3"
libc = "0.2"
serde = { version = "1", features = ["derive"] }
serde_json = "1"
thread-id = "4"
tiberius = { version = "0.12", default-features = false, features = ["tds73", "time", "rustls"] }
time = "0.3"
tokio = { version = "1", features = ["rt", "net"] }
tokio-util = { version = "0.7", features = ["compat"] }
