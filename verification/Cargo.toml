[package]
name = "pg_embed"
version = "0.1.0"
edition = "2021"
publish = false

[dependencies]
zip = { version = "*", default-features = false, features = ["deflate"] }
tar = "*"
xz2 = "*"
dirs = "*"
tokio = { version = "*", features = ["full"] }
reqwest = { version = "*", default-features = false }
