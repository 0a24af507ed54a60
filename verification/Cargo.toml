[package]
name = "checkout"
version = "0.1.0"
edition = "2021"
publish = false

[dependencies]
diesel = { version = "1.4", features = ["postgres", "r2d2", "serde_json", "uuidv07"] }
diesel_migrations = "1.4"
dotenv = "0.15"
iron = "0.6"
juniper = "0.15"
juniper_iron = "0.7"
logger = "0.4"
mount = "0.4"
pretty_env_logger = "0.4"
r2d2 = "0.8"
r2d2-diesel = "1.0"
serde = { version = "1.0", features = ["derive"] }
serde_derive = "1.0"
serde_json = "1.0"
uuid = { version = "0.8", features = ["serde", "v4"] }
