[package]
name = "mdast_json"
version = "0.1.0"
edition = "2021"
publish = false

[dependencies]
markdown = "=1.0.0-alpha.16"
serde = { version = "1", features = ["derive"] }
serde_json = { version = "1", features = ["preserve_order"] }
yaml-front-matter = "0.1"
