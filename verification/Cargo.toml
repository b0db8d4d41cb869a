[package]
name = "mydone"
version = "0.1.0"
edition = "2021"
publish = false

[dependencies]
chrono = "=0.4.45"
anyhow = "=1.0.104"
tracing = "=0.1.44"
libset = "=0.1.6"
serde = { version = "=1.0.229", features = ["derive"] }
diesel = { version = "=2.3.14", features = ["sqlite"] }
relm4 = { version = "=0.7.1", features = ["libadwaita"] }
uuid = { version = "1", features = ["v4"] }

[dev-dependencies]
relm4-icons-build = "*"
