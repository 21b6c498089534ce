[package]
name = "vortex_ais"
version = "0.2.0"
edition = "2021"
publish = false

[dependencies]
zip = { version = "2", default-features = false, features = ["deflate"] }
serde = { version = "1", features = ["derive"] }
reqwest = { version = "0.12", default-features = false, features = ["json", "rustls-tls"] }
tokio = { version = "1", features = ["rt-multi-thread", "macros"] }
eframe = { version = "0.29", default-features = false, features = ["glow", "x11", "default_fonts"] }
