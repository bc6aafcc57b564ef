[package]
name = "lazy_notes"
version = "0.1.0"
edition = "2021"
publish = false

[dependencies]
ammonia = "=4.0.0"
anyhow = "=1.0.104"
async-trait = "=0.1.92"
axum = "=0.7.9"
bcrypt = "=0.15.1"
chrono = { version = "=0.4.45", default-features = false }
crux_core = "=0.7.6"
crux_http = "=0.8.0"
crux_kv = "=0.1.10"
crux_macros = "=0.3.9"
html5ever = "=0.27.0"
http = "=1.5.0"
leptos = { version = "=0.6.15", features = ["ssr"] }
leptos_axum = "=0.6.15"
leptos_meta = { version = "=0.6.15", features = ["ssr"] }
leptos_router = { version = "=0.6.15", features = ["ssr"] }
log = "=0.4.34"
pulldown-cmark = { version = "=0.10.3", default-features = false, features = ["html"] }
regex = "=1.13.1"
serde = { version = "=1.0.229", features = ["derive"] }
serde_json = "=1.0.154"
simple_logger = { version = "=4.3.3", default-features = false }
tokio = { version = "=1.54.1", features = ["rt-multi-thread", "macros", "net"] }
toml = "=0.8.23"
tower = { version = "=0.4.13", features = ["util"] }
tower-http = { version = "=0.5.2", features = ["fs"] }
