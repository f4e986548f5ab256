[package]
name = "superterminal"
version = "0.1.0"
edition = "2021"

[dependencies]
arboard = { version = "=3.7.0", default-features = false }
async-openai = { version = "=0.42.2", features = ["chat-completion"] }
clap = { version = "=4.6.7", features = ["derive"] }
colored = "=3.1.1"
dialoguer = "=0.12.0"
dirs = "=7.0.0"
dotenvy = "=0.15.7"
serde = { version = "=1.0.229", features = ["derive"] }
serde_json = "=1.0.154"
thiserror = "=2.0.21"
tokio = { version = "=1.54.1", features = ["rt-multi-thread", "macros"] }
