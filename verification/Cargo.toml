[package]
name = "rm_partial_pick_remover_api"
version = "0.1.0"
edition = "2021"
publish = false

[dependencies]
jsonwebtoken = { version = "=11.1.0", features = ["rust_crypto"] }
serde_json = "*"
serde = { version = "*", features = ["derive"] }
actix-web = "*"
actix-cors = "*"
tokio = { version = "*", features = ["macros", "rt-multi-thread", "time", "net"] }
tokio-util = { version = "*", features = ["compat"] }
ldap3 = "*"
native-tls = "*"
tiberius = "*"
anyhow = "*"
log = "*"
env_logger = "*"
dotenv = "*"
