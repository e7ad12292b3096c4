[package]
name = "hlmv"
version = "0.1.0"
edition = "2021"
publish = false

[dependencies]
image = { version = "0.25", default-features = false, features = ["jpeg", "png", "gif", "webp", "bmp", "tiff", "ico"] }
rusqlite = { version = "*", features = ["bundled"] }
rocket = { version = "0.5", features = ["json"] }
