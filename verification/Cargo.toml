[package]
name = "milyai"
version = "0.1.0"
edition = "2021"
publish = false

[dependencies]
anyhow = "=1.0.104"
async-openai = { version = "=0.42.2", features = ["chat-completion"] }
bytemuck = "=1.25.2"
chrono = { version = "=0.4.45", features = ["serde"] }
clap = { version = "=4.6.7", features = ["derive"] }
cpal = "=0.18.2"
directories = "=6.0.0"
dunce = "=1.0.5"
num_cpus = "=1.17.0"
parking_lot = "=0.12.5"
reqwest = { version = "=0.12.28", default-features = false, features = ["json"] }
robotstxt = "=0.3.0"
rss = "=2.1.2"
scraper = "=0.29.0"
serde = { version = "=1.0.229", features = ["derive"] }
serde_json = "=1.0.154"
serde_yaml = "=0.9.34"
tokio = { version = "=1.54.1", features = ["macros", "rt-multi-thread", "time"] }
tracing-subscriber = { version = "=0.3.23", features = ["env-filter"] }
tts = "*"
url = "=2.5.8"
vosk = "=0.3.1"
webbrowser = "=1.2.5"
