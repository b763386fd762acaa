[package]
name = "receivetn"
version = "0.1.0"
edition = "2021"
publish = false

[dependencies]
bytes = "*"
chrono = "0.4"
config = "*"
futures = "0.3"
regex = "1"
reqwest = { version = "*", default-features = false }
rss = "*"
structopt = "0.3"
tokio = { version = "1", features = ["macros", "rt-multi-thread"] }
