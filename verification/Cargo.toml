[package]
name = "lune_fonts"
version = "0.1.0"
edition = "2021"
publish = false

[dependencies]
rbx_dom_weak = "2"
mlua = { version = "0.8", features = ["luau"] }
reqwest = { version = "0.11", default-features = false, features = ["rustls-tls"] }
serde = { version = "1", features = ["derive"] }
serde_json = "1"
tokio = { version = "1", features = ["fs", "macros", "rt-multi-thread"] }
anyhow = "1"
