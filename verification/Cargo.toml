[package]
name = "text_to_cypher"
version = "0.1.0"
edition = "2021"
publish = false

[dependencies]
falkordb = { version = "=0.10.4", features = ["tokio"] }
genai = "=0.6.5"
tokio = { version = "=1.53.2", features = ["rt-multi-thread", "macros", "sync"] }
serde = { version = "=1.0.229", features = ["derive"] }
serde_json = "=1.0.151"
futures = "=0.3.34"
