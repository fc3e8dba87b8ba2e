[package]
name = "llamabot"
version = "0.1.0"
edition = "2021"
publish = false

[dependencies]
anyhow = "=1.0.104"
async-openai = "=0.28.3"
chrono = "=0.4.45"
serde = { version = "=1.0.229", features = ["derive"] }
serde_json = "=1.0.151"
# Not used directly: teloxide-core wants takecell ^0.1, and 0.1.2 asks for
# a newer rustc than the toolchain here, so hold the resolver to 0.1.1.
takecell = "=0.1.1"
teloxide = "=0.17.0"
tokio = { version = "=1.53.2", features = ["macros", "rt-multi-thread", "time", "fs", "signal"] }
