[package]
name = "rs-commons"
version = "0.1.0"
edition = "2021"
publish = false

[dependencies]
rhai = "1"
chrono = "0.4"
uuid = { version = "1", features = ["v4", "serde"] }
serde = { version = "1", features = ["derive"] }
serde_json = "1"
derive_more = "0.99"
actix-web = { version = "4", default-features = false, features = ["macros"] }
tokio = { version = "1", features = ["full"] }
lapin = "2"
deadpool-postgres = "*"
postgres-types = { version = "*", features = ["derive", "with-uuid-1", "with-chrono-0_4", "with-serde_json-1"] }
postgres-openssl = "*"
openssl = "*"
refinery = { version = "*", features = ["tokio-postgres"] }
futures-lite = "*"
async-trait = "*"
log = "0.4"
env_logger = { version = "*", default-features = false }
dotenv = "0.15"
envy = "*"
