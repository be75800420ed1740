[package]
name = "articles_collect"
version = "0.1.0"
edition = "2021"
publish = false

[dependencies]
uuid = { version = "=1.29.0", features = ["v4", "serde"] }
serde = { version = "=1.0.229", features = ["derive"] }
leptos = { version = "=0.8.22", features = ["ssr"] }
leptos_meta = { version = "=0.8.7", features = ["ssr"] }
leptos_router = { version = "=0.8.17", features = ["ssr"] }
leptos_axum = { version = "=0.8.10" }
server_fn = { version = "=0.8.13" }
axum = { version = "=0.8.9" }
tokio = { version = "=1.54.1", features = ["rt-multi-thread", "macros", "net"] }
tower = { version = "=0.5.3", features = ["util", "timeout"] }
tower-http = { version = "=0.6.11", features = ["fs", "trace"] }
tracing = { version = "=0.1.44" }
tracing-subscriber = { version = "=0.3.23" }
dotenv = { version = "=0.15.0" }
futures = { version = "=0.3.34" }
sea-orm = { version = "=1.1.20", default-features = false, features = ["macros", "with-uuid", "sqlx-postgres", "runtime-tokio-rustls"] }
sea-orm-migration = { version = "=1.1.20", default-features = false, features = ["sqlx-postgres", "runtime-tokio-rustls"] }
async-trait = { version = "=0.1.92" }
