[package]
name = "form_intake"
version = "0.1.0"
edition = "2021"
publish = false

[dependencies]
axum = "=0.8.9"
dotenv = "=0.15.0"
lettre = { version = "=0.11.23", default-features = false, features = ["smtp-transport", "builder", "hostname", "pool", "rustls-tls"] }
maud = { version = "=0.27.0", features = ["axum"] }
mongodb = "=3.9.1"
serde = { version = "=1.0.229", features = ["derive"] }
tokio = { version = "=1.53.2", features = ["macros", "rt-multi-thread", "net"] }
tower-http = { version = "=0.7.1", features = ["fs", "add-extension"] }
