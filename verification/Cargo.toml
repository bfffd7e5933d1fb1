[package]
name = "media_bridge"
version = "0.1.0"
edition = "2021"
publish = false

[dependencies]
anyhow = "*"
async-stream = "*"
async-trait = "*"
axum = "*"
futures = "*"
hyper = { version = "*", features = ["http1", "server"] }
hyper-util = { version = "*", features = ["tokio", "server", "service"] }
mime_guess = "*"
reqwest = { version = "*", default-features = false, features = ["rustls-tls"] }
serde = { version = "*", features = ["derive"] }
serde_json = "*"
thiserror = "*"
tokio = { version = "*", features = ["macros", "rt-multi-thread", "sync", "time", "net", "fs", "process", "io-util"] }
tokio-rustls = { version = "*", default-features = false, features = ["ring", "tls12"] }
tokio-stream = "*"
tower-http = { version = "*", features = ["cors", "trace"] }
tracing = "*"
tracing-journald = "*"
tracing-subscriber = { version = "*", features = ["env-filter", "fmt", "registry"] }
zbus = { version = "*", default-features = false, features = ["tokio"] }
zvariant = "*"
