[package]
name = "supertonic_openai"
version = "0.1.0"
edition = "2021"
publish = false

[dependencies]
hound = "=3.5.1"
ogg = "=0.9.2"
axum = { version = "=0.8.9", features = ["macros"] }
tokio = { version = "=1.54.1", features = ["macros", "rt-multi-thread", "net", "signal", "sync"] }
clap = { version = "=4.6.7", features = ["derive"] }
serde = { version = "=1.0.229", features = ["derive"] }
anyhow = "=1.0.104"
tempfile = "=3.27.0"
rubato = "=5.0.1"
audioadapter-buffers = "=5.2.0"
opus = "=0.3.1"
