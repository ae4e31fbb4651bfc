[package]
name = "auth_core"
version = "0.1.0"
edition = "2021"
publish = false

[dependencies]
axum = "*"
bcrypt = "*"
include_dir = "*"
mime_guess = "*"
once_cell = "*"
serde = { version = "*", features = ["derive"] }
serde_json = "*"
tokio = { version = "*", features = ["full"] }
tower-http = { version = "*", features = ["cors"] }
uuid = { version = "*", features = ["v4"] }
