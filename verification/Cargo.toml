[package]
name = "image_resize"
version = "0.1.0"
edition = "2021"
publish = false

[dependencies]
time = { version = "0.3", features = ["formatting", "parsing"] }
sha2 = "0.10"
image = { version = "0.25", default-features = false, features = ["png", "jpeg", "webp"] }
kamadak-exif = "0.5"
ulid = "1"
axum = { version = "0.7", features = ["multipart"] }
tokio = { version = "1", features = ["rt-multi-thread", "macros", "net"] }
tower-http = { version = "0.5", features = ["fs"] }
tracing = "0.1"
tracing-subscriber = { version = "0.3", features = ["env-filter"] }
serde = { version = "1", features = ["derive"] }
rusqlite = { version = "0.32", features = ["bundled"] }
aws-sdk-s3 = "1"
aws-credential-types = "1"
