[package]
name = "arms"
version = "0.1.0"
edition = "2021"
publish = false

[dependencies]
async-openai = { version = "=0.42.2", features = ["responses", "chat-completion"] }
async-trait = "=0.1.92"
rand = "=0.10.3"
