[package]
name = "istruct"
version = "0.1.0"
edition = "2021"
publish = false

[dependencies]
anyhow = "1"
async-trait = "0.1"
axum = "0.4"
diplomatic-bag = "*"
persy = "1"
serde = { version = "1", features = ["derive"] }
tokio = { version = "1", features = ["rt-multi-thread"] }
tower-http = { version = "0.2", features = ["trace"] }
tracing-subscriber = "0.3"
uuid = { version = "0.8", features = ["v4", "serde"] }
virt = "0.2"
xml_serde = "*"
