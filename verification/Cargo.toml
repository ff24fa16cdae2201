[package]
name = "gpt_macro"
version = "0.1.0"
edition = "2021"
publish = false

[dependencies]
async-openai = { version = "=0.42.2", features = ["chat-completion"] }
hyper = { version = "=0.14.32", features = ["client", "http1", "tcp"] }
hyper-tls = "=0.5.0"
log = "=0.4.34"
proc-macro2 = "=1.0.107"
quote = "=1.0.47"
serde = { version = "=1.0.229", features = ["derive"] }
serde_json = "=1.0.154"
syn = { version = "=2.0.119", features = ["full"] }
tokio = { version = "=1.54.1", features = ["rt-multi-thread"] }
