[package]
name = "pathlock"
version = "0.1.0"
edition = "2021"
publish = false

[dependencies]
zip = "0.6"
percent-encoding = "2"
bcrypt = "*"
actix-web = "4"
actix-multipart = "0.7"
actix-cors = "0.7"
actix-service = "2"
tokio = { version = "1", features = ["full"] }
serde = { version = "1", features = ["derive"] }
serde_json = "1"
jsonwebtoken = "9"
deadpool-postgres = "*"
tokio-postgres = "0.7"
dotenv = "0.15"
env_logger = "*"
log = "0.4"
once_cell = "1"
futures = "0.3"
futures-util = "0.3"
walkdir = "2"
tempfile = "3"
async-trait = "0.1"
