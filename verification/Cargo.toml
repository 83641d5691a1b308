[package]
name = "ics_proxy"
version = "0.1.0"
edition = "2021"
publish = false

[dependencies]
uuid = { version = "1", features = ["v4"] }
url = "2"
chrono = "0.4"
actix-web = { version = "4", default-features = false, features = ["macros"] }
sqlx = { version = "0.8", default-features = false, features = ["runtime-tokio", "sqlite"] }
tera = { version = "1", default-features = false }
tokio = { version = "1", features = ["rt-multi-thread", "macros", "time"] }
reqwest = { version = "0.12", default-features = false }
dotenv = "0.15"
