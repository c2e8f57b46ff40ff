[package]
name = "lsp_analyzer"
version = "0.1.0"
edition = "2021"
publish = false

[dependencies]
axum = { version = "*", features = ["ws"] }
dotenvy = "*"
futures = "*"
html-escape = "*"
lsp-server = "*"
lsp-types = "*"
serde = { version = "*", features = ["derive"] }
serde_json = "*"
sqlx = { version = "*", default-features = false, features = ["postgres", "runtime-tokio", "time"] }
time = "*"
tokio = { version = "*", features = ["macros", "net", "rt-multi-thread"] }
tracing = "*"
tracing-subscriber = { version = "*", features = ["env-filter"] }
