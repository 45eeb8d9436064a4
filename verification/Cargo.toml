[package]
name = "mongo_crud"
version = "0.1.0"
edition = "2021"
publish = false

[dependencies]
actix-cors = "0.7"
actix-http = "3"
actix-web = { version = "4", default-features = false, features = ["macros"] }
bson = "2"
chrono = "0.4"
dotenv = "0.15"
env_logger = "0.10"
futures-util = "0.3"
jsonwebtoken = { version = "9", default-features = false }
lazy_static = "1"
mongodb = "2"
serde = { version = "1", features = ["derive"] }
serde_json = "1"

[dev-dependencies]
tokio = { version = "1", features = ["rt"] }
