[package]
name = "monty_hall_mpc"
version = "0.1.0"
edition = "2021"
publish = false

[dependencies]
hkdf = "=0.13.0"
sha2 = "=0.11.0"
crypto_box = "=0.9.1"
rustls = { version = "=0.23.45", default-features = false, features = ["ring", "std", "logging", "tls12"] }
axum = "=0.8.9"
tokio = { version = "=1.53.2", features = ["rt-multi-thread", "macros", "sync", "net", "time", "io-util"] }
clap = { version = "=4.6.7", features = ["derive", "env"] }
serde = { version = "=1.0.229", features = ["derive"] }
eyre = "=0.6.14"
secrecy = "=0.10.3"
sqlx = { version = "=0.9.0", default-features = false, features = ["runtime-tokio", "postgres"] }
tracing = "=0.1.44"
tracing-subscriber = { version = "=0.3.23", features = ["env-filter", "fmt"] }
tower-http = { version = "=0.7.1", features = ["cors"] }
