[package]
name = "leogpt"
version = "0.1.0"
edition = "2021"
publish = false

[dependencies]
base64 = "*"
chrono = "*"
data-url = "*"
dotenvy = "*"
eventsource-stream = "*"
futures = "*"
fuzzy-matcher = "*"
hound = "*"
log = "*"
mime = "*"
mime_guess = "*"
poise = "*"
reqwest = { version = "*", default-features = false, features = ["json", "rustls-tls"] }
serde = { version = "*", features = ["derive"] }
serde_json = "*"
strsim = "*"
tokio = { version = "*", features = ["macros", "rt-multi-thread", "signal", "sync"] }
url = "*"
