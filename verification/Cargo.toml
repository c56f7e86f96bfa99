[package]
name = "shiritori"
version = "0.1.0"
edition = "2021"
publish = false

[dependencies]
kanji = "*"
indoc = "*"
serenity = { version = "0.11", default-features = false, features = ["client", "gateway", "model", "rustls_backend"] }
tokio = { version = "1", features = ["macros", "rt-multi-thread"] }
