[package]
name = "message_server"
version = "0.1.0"
edition = "2021"
publish = false

[dependencies]
chrono = "=0.4.45"
jsonwebtoken = { version = "=11.1.0", features = ["rust_crypto"] }
sha2 = "=0.10.9"
serde = { version = "=1.0.229", features = ["derive"] }
serde_json = { version = "=1.0.154", features = ["preserve_order"] }
rocket = { version = "=0.5.2", features = ["json"] }
diesel = { version = "=2.3.14", features = ["sqlite", "r2d2"] }
dotenv = "=0.15.0"
thiserror = "=2.0.21"
log = "=0.4.34"
fern = "=0.7.1"
async-log = "=2.0.0"
utoipa = { version = "=6.0.0", features = ["rocket_extras"] }
utoipa-swagger-ui = { version = "=10.0.2", features = ["rocket", "vendored"] }
