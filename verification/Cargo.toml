[package]
name = "spnl"
version = "0.1.0"
edition = "2021"
publish = false

[dependencies]
anyhow = "=1.0.104"
serde = { version = "=1.0.229", features = ["derive"] }
serde_json = "=1.0.154"
serde_yaml2 = "=0.1.3"
thiserror = "=2.0.21"
tokio = { version = "=1.54.1", features = ["rt-multi-thread", "macros", "io-std", "io-util", "sync", "time", "net", "signal"] }
futures = "=0.3.34"
indicatif = "=0.18.6"
ptree = { version = "=0.5.2", default-features = false, features = ["ansi"] }
tabled = { version = "=0.22.0", default-features = false, features = ["std"] }
reqwest = { version = "=0.12.28", default-features = false, features = ["json", "stream", "rustls-tls"] }
async-openai = { version = "=0.43.0", features = ["chat-completion", "completions", "embedding"] }
uuid = { version = "=1.29.0", features = ["v4"] }
duct = "=1.1.2"
fs4 = { version = "=1.1.0", features = ["sync"] }
tokio-stream = { version = "=0.1.19", features = ["net"] }
kube = { version = "=5.0.0", features = ["runtime", "ws"] }
k8s-openapi = { version = "=0.29.0", features = ["latest"] }
rustls = { version = "=0.23.46", features = ["ring"] }
tokenizers = { version = "=0.23.2", default-features = false, features = ["fancy-regex"] }
hf-hub = { version = "=0.5.0", default-features = false, features = ["ureq"] }
