[package]
name = "warren_cmp"
version = "0.1.0"
edition = "2021"
publish = false

[dependencies]
askama = { version = "=0.12.1", features = ["with-axum"] }
askama_axum = "=0.4.0"
axum = "=0.7.9"
chrono = { version = "=0.4.45", features = ["serde"] }
ordered-float = { version = "=4.6.0", features = ["serde"] }
serde = { version = "1", features = ["derive"] }
shuttle-axum = "=0.49.0"
shuttle-persist = "=0.49.0"
shuttle-runtime = "=0.49.0"
tokio = { version = "1", features = ["macros", "rt-multi-thread"] }
tower-http = { version = "=0.5.2", features = ["cors", "fs"] }
uuid = { version = "=1.29.0", features = ["v4"] }
