[package]
name = "mcp_scanner"
version = "1.0.0"
edition = "2021"
publish = false

[dependencies]
chrono = "0.4"
clap = "2"
futures = "0.3"
handlebars = "4"
log = "0.4"
log4rs = "1"
serde = { version = "1", features = ["derive"] }
serde_json = "1"
tokio = { version = "1", features = ["rt-multi-thread", "net", "time"] }
toml = "0.5"
uuid = { version = "1", features = ["v4"] }
