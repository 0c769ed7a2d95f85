[package]
name = "ai_gateway"
version = "0.1.0"
edition = "2021"
publish = false

[dependencies]
actix-files = "*"
actix-web = "*"
actix-web-httpauth = "*"
anyhow = "*"
argon2 = "*"
chrono = "*"
diesel = { version = "*", features = ["sqlite", "returning_clauses_for_sqlite_3_35"] }
dotenv = "*"
env_logger = "*"
futures-util = "*"
jsonwebtoken = "*"
libsqlite3-sys = { version = "*", features = ["bundled"] }
log = "*"
rand = "*"
rand_core = "*"
reqwest = { version = "*", default-features = false, features = ["json", "stream"] }
serde = { version = "*", features = ["derive"] }
serde_json = "*"
tera = "*"
tokio = { version = "*", features = ["macros", "rt-multi-thread", "sync"] }
uuid = { version = "*", features = ["v4"] }
