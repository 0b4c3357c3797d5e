[package]
name = "device_registry"
version = "0.1.0"
edition = "2021"
publish = false

[dependencies]
uuid = { version = "=1.29.0", features = ["serde"] }
chrono = { version = "=0.4.45", default-features = false, features = ["std", "serde"] }
serde = { version = "=1.0.229", features = ["derive"] }
serde_json = "=1.0.154"
actix-web = { version = "=4.18.1", default-features = false, features = ["macros"] }
actix-cors = "=0.7.2"
sqlx = { version = "=0.8.6", default-features = false, features = ["postgres", "runtime-tokio", "uuid", "chrono"] }
dotenv = "=0.15.0"
env_logger = { version = "=0.11.11", default-features = false }
utoipa = { version = "=6.0.0", features = ["actix_extras", "chrono", "uuid"] }
utoipa-swagger-ui = { version = "=10.0.2", features = ["actix-web", "vendored"] }
