[package]
name = "wamp_rs"
version = "0.1.0"
edition = "2021"
publish = false

[dependencies]
websockets = "0.3.0"
json = "0.12.4"
tokio = { version = "1", features = ["macros", "rt-multi-thread"] }
dotenv_codegen = "0.15.0"
