[package]
name = "ebook_core"
version = "0.1.0"
edition = "2021"
publish = false

[dependencies]
rusqlite = { version = "*", features = ["bundled"] }
serde = { version = "*", features = ["derive"] }
serde_json = "*"
log = "*"
stderrlog = "*"
structopt = "0.3"
rusoto_core = "0.48"
rusoto_s3 = "0.48"
futures = "0.3"
