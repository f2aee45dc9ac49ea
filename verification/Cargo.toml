[package]
name = "query_log_replay"
version = "0.1.0"
edition = "2021"
publish = false

[dependencies]
arrow = { version = "*", default-features = false, features = ["json"] }
bytes = "1"
futures = "0.3"
prost = { version = "0.9", default-features = false, features = ["std"] }
serde_json = "1"
structopt = "0.3"
tokio = { version = "1", features = ["macros", "rt-multi-thread"] }
