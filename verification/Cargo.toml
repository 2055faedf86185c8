[package]
name = "workspace_gallery"
version = "0.1.0"
edition = "2021"
publish = false

[dependencies]
axum = "*"
serde = { version = "*", features = ["derive"] }
serde_json = "*"
tokio = { version = "*", features = ["full"] }
utoipa = "*"
uuid = { version = "*", features = ["v4"] }
