[package]
name = "tansu_mysql"
version = "0.1.0"
edition = "2021"
publish = false

[dependencies]
chrono = "0.4"
deadpool = { version = "0.12", default-features = false, features = ["managed", "rt_tokio_1"] }
mysql_async = { version = "0.36", default-features = false, features = ["minimal-rust"] }
opentelemetry = "0.31"
rand = "0.9"
serde = "1"
serde_json = "1"
tokio = { version = "1", features = ["rt"] }
url = "2"
uuid = { version = "1", features = ["v4"] }
