[package]
name = "agrilink"
version = "0.1.0"
edition = "2021"
publish = false

[dependencies]
rand = "=0.8.8"
uuid = { version = "=1.27.0", features = ["v4", "serde"] }
chrono = { version = "=0.4.45", default-features = false, features = ["clock", "serde"] }
serde = { version = "1", features = ["derive"] }
serde_json = "1"
log = "0.4"
env_logger = "0.11"
dotenv = "0.15"
anyhow = "1"
futures-util = "0.3"
tokio = { version = "1", features = ["rt-multi-thread", "macros"] }
actix-web = { version = "4", default-features = false, features = ["macros", "cookies"] }
actix-cors = "0.7"
actix-session = { version = "0.10", features = ["cookie-session"] }
sqlx = { version = "0.8", default-features = false, features = ["runtime-tokio", "postgres", "macros", "chrono", "uuid", "json"] }
reqwest = { version = "0.12", default-features = false, features = ["json"] }
