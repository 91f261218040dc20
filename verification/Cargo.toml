[package]
name = "task_backend"
version = "0.1.0"
edition = "2021"
publish = false

[dependencies]
nanoid = "=0.4.0"
mongodb = "=2.8.2"
actix-web = { version = "=4.18.1", default-features = false, features = ["macros"] }
serde = { version = "=1.0.229", features = ["derive"] }
futures = "=0.3.34"
reqwest = { version = "=0.11.27", default-features = false }
log = "=0.4.34"
actix-cors = "0.7"
chrono = { version = "0.4", default-features = false, features = ["clock"] }
dotenvy = "0.15"
log4rs = { version = "1", default-features = false, features = ["console_appender", "file_appender", "config_parsing", "yaml_format"] }
