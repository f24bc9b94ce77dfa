[package]
name = "actix_practice"
version = "0.1.0"
edition = "2021"
publish = false

[dependencies]
actix-web = { version = "4", default-features = false, features = ["macros", "compress-gzip"] }
actix-cors = "0.7"
actix-files = "0.6"
rand = "0.9"
urlencoding = "2"
serde = { version = "1", features = ["derive"] }
serde_json = "1"
tokio = { version = "1", features = ["sync", "macros", "rt"] }
futures = "0.3"
futures-util = "0.3"
env_logger = "0.11"
