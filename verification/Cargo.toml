[package]
name = "agarust_server"
version = "0.1.0"
edition = "2021"
publish = false

[dependencies]
anyhow = "1"
bcrypt = "*"
bytes = "1"
dotenv = "*"
futures-util = "0.3"
hashbrown = "*"
nanoid = "*"
prost = "*"
rand = "*"
sqlx = { version = "*", default-features = false, features = ["runtime-tokio", "sqlite"] }
tokio = { version = "1", features = ["macros", "net", "rt-multi-thread", "sync", "time"] }
tokio-tungstenite = "*"
tracing = "0.1"
tracing-appender = "*"
tracing-subscriber = "*"
