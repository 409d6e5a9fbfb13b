[package]
name = "cosmic_wallpaper"
version = "0.1.0"
edition = "2021"
publish = false

[dependencies]
url = "=2.5.8"
rustc-hash = "=2.1.3"
lru = "=0.19.0"
image = { version = "0.25", default-features = false, features = ["png", "jpeg", "gif", "webp", "bmp"] }
serde = { version = "=1.0.229", features = ["derive"] }
serde_json = "=1.0.154"
tokio = { version = "=1.54.1", features = ["rt-multi-thread", "macros", "net", "time", "sync"] }
reqwest = { version = "=0.12.28", default-features = false, features = ["json", "rustls-tls"] }
anyhow = "=1.0.104"
tracing = "=0.1.44"
