[package]
name = "corpus_assembly"
version = "0.1.0"
edition = "2021"
publish = false

[dependencies]
quick-xml = "0.22"
zip = { version = "0.6", default-features = false, features = ["deflate"] }
ignore = "0.4"
clap = { version = "4", features = ["derive"] }
serde_json = "1"
reqwest = { version = "0.12", default-features = false, features = ["json", "rustls-tls"] }
tokio = { version = "1", features = ["macros", "rt-multi-thread"] }
chrono = "0.4"
