[package]
name = "block_mesh_manager"
version = "0.1.0"
edition = "2021"
publish = false

[dependencies]
chrono = "0.4"
uuid = { version = "1", features = ["v4", "serde"] }
serde = { version = "1", features = ["derive"] }
serde_json = "1"
anyhow = "1"
tokio = { version = "1", features = ["sync", "rt"] }
flume = "0.11"
sqlx = { version = "0.8", default-features = false, features = ["postgres", "runtime-tokio"] }
tracing = "0.1"
leptos = "0.6"
wasm-bindgen = "0.2"
gloo-utils = { version = "0.2", features = ["serde"] }
