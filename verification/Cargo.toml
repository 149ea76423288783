[package]
name = "televido"
version = "0.1.0"
edition = "2021"
publish = false

[dependencies]
indexmap = "*"
html2pango = "*"
mediathekviewweb = "*"
reqwest = { version = "*", default-features = false, features = ["json", "rustls-tls"] }
serde = { version = "*", features = ["derive"] }
serde_json = "*"
time = { version = "*", features = ["serde-well-known", "formatting", "parsing"] }
tokio = { version = "*", features = ["rt-multi-thread", "macros"] }
