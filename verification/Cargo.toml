[package]
name = "openwarp"
version = "0.1.0"
edition = "2021"
publish = false

[dependencies]
anyhow = "1"
ordered-float = "4"
serde = { version = "1", features = ["derive"] }
