[package]
name = "rolecall"
version = "0.1.0"
edition = "2021"
publish = false

[dependencies]
argonautica = "*"
dotenv = "*"
flurry = "*"
futures = "*"
log = "*"
rand = "*"
rocket = { version = "*", features = ["json"] }
rocket_cors = "*"
rocket-multipart-form-data = "*"
serde = { version = "*", features = ["derive"] }
serde_json = "*"
simple_logger = "*"
tokio = { version = "*", features = ["full"] }
tokio-postgres = "*"
tokio-tungstenite = "*"
uuid = { version = "*", features = ["v4"] }
