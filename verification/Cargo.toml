[package]
name = "lek_backend"
version = "0.1.0"
edition = "2021"
publish = false

[dependencies]
bcrypt = "0.13"
jsonwebtoken = "8"
serde_json = "1"
serde = { version = "1", features = ["derive"] }
serde_derive = "1"
async-trait = "0.1"
clap = { version = "4", features = ["derive"] }
rocket = "0.5"
rocket_sync_db_pools = { version = "0.1", features = ["diesel_postgres_pool"] }
rocket_cors = "*"
diesel = { version = "*", features = ["postgres"] }
diesel_migrations = "*"
juniper = "*"
juniper_rocket = "*"
