[package]
name = "excelize"
version = "0.1.0"
edition = "2021"
publish = false

[dependencies]
quick-xml = { version = "0.22", features = ["serialize"] }
serde = { version = "1", features = ["derive"] }
zip = { version = "0.6", default-features = false, features = ["deflate"] }
