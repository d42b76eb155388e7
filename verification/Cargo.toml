[package]
name = "lastfm_rpc"
version = "0.1.0"
edition = "2021"
publish = false

[dependencies]
url = "*"
serde = { version = "*", features = ["derive"] }
toml = "*"
dotenvy = "*"
inquire = "*"
home = "*"
discord-rich-presence = "*"
reqwest = { version = "*", default-features = false, features = ["json"] }
tokio = { version = "*", features = ["rt-multi-thread", "macros", "time"] }
tracing = "*"
tracing-appender = "*"
tracing-subscriber = "*"
colored = "*"
crossterm = "*"
