[package]
name = "bookbase"
version = "0.1.0"
edition = "2021"
publish = false

[dependencies]
uuid = { version = "*", features = ["v4"] }
urlencoding = "*"
serde = { version = "*", features = ["derive"] }
serde_json = "*"
toml = "*"
log = "*"
tokio = { version = "*", features = ["rt", "sync", "time", "fs", "macros"] }
sqlx = { version = "*", default-features = false, features = ["sqlite", "runtime-tokio"] }
reqwest = { version = "*", default-features = false, features = ["json"] }
moka = { version = "*", features = ["future"] }
