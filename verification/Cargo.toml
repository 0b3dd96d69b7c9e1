[package]
name = "huntermatrix"
version = "0.1.0"
edition = "2021"
publish = false

[dependencies]
lettre = { version = "=0.11.23", default-features = false, features = ["smtp-transport", "builder", "rustls-tls"] }
chrono = "=0.4.45"
serde = { version = "*", features = ["derive"] }
toml = "*"
handlebars = "*"
anyhow = "*"
tokio = { version = "*", features = ["rt-multi-thread", "macros", "time"] }
matrix-sdk = { version = "=0.16.1", default-features = false, features = ["rustls-tls", "markdown"] }
