[package]
name = "payments_api"
version = "0.1.0"
edition = "2021"
publish = false

[dependencies]
actix-web = { version = "4", default-features = false, features = ["macros"] }
async-trait = "0.1"
bigdecimal = "0.4"
chrono = { version = "0.4", features = ["serde"] }
diesel = { version = "2", features = ["postgres", "r2d2", "chrono", "numeric"] }
dotenv = "0.15"
env_logger = "0.11"
log = "0.4"
r2d2 = "0.8"
redis = { version = "0.27", features = ["r2d2"] }
reqwest = { version = "0.12", default-features = false, features = ["json"] }
serde = { version = "1", features = ["derive"] }
serde_json = "1"
tokio = { version = "1", features = ["rt-multi-thread", "macros", "time"] }
