[package]
name = "imagegen"
version = "0.1.0"
edition = "2021"
publish = false

[dependencies]
aws-sdk-s3 = { version = "=1.157.0", default-features = false, features = ["rt-tokio", "rustls", "behavior-version-latest"] }
axum = "=0.8.9"
axum-extra = { version = "=0.10.3", features = ["typed-header"] }
bcrypt = "=0.17.1"
chrono = { version = "=0.4.45", default-features = false, features = ["clock", "serde", "std"] }
dotenvy = "=0.15.7"
jsonwebtoken = "=9.3.1"
reqwest = { version = "=0.12.28", default-features = false, features = ["json", "rustls-tls"] }
serde = { version = "=1.0.229", features = ["derive"] }
sqlx = { version = "=0.8.6", default-features = false, features = ["postgres", "runtime-tokio", "uuid", "chrono"] }
tokio = { version = "=1.54.1", features = ["macros", "rt-multi-thread", "net"] }
uuid = { version = "=1.29.0", features = ["serde"] }
