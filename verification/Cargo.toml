[package]
name = "bulkpixel"
version = "0.1.0"
edition = "2021"
publish = false

[dependencies]
rusqlite = { version = "=0.41.1", features = ["bundled"] }
dirs = "=6.0.0"
image = { version = "=0.25.10", default-features = false, features = ["jpeg", "png", "webp", "avif"] }
resvg = "=0.45.1"
webp = "=0.3.1"
base64 = "=0.22.1"
notify = "=8.2.1"
serde = { version = "=1.0.229", features = ["derive"] }
thiserror = "=2.0.21"
