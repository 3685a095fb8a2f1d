[package]
name = "dexr"
version = "0.1.0"
edition = "2021"
publish = false

[dependencies]
base64 = "0.13"
anyhow = "1"
axum = "0.5"
bindable = "*"
figment = { version = "0.10", features = ["env", "toml"] }
futures = "0.3"
html-escape = "0.2"
http = "0.2"
hyper = { version = "0.14", features = ["full"] }
mime = "0.3"
once_cell = "1"
serde = { version = "1", features = ["derive"] }
serde_json = "1"
serde_urlencoded = "0.7"
time = { version = "0.3", features = ["formatting", "macros"] }
tokio = { version = "1", features = ["full"] }
tokio-rayon = "2"
tower-http = { version = "0.3", features = ["fs"] }
tracing = "0.1"
tracing-subscriber = "0.3"
