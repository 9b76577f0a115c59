[package]
name = "jenkins_cli"
version = "0.1.0"
edition = "2021"
publish = false

[dependencies]
base64 = "0.22"
clap = { version = "4", features = ["derive"] }
dialoguer = "0.11"
dirs = "5"
owo-colors = "4"
reqwest = { version = "0.12", default-features = false, features = ["blocking", "rustls-tls"] }
rmcp = { version = "*", features = ["server", "macros", "transport-io"] }
serde = { version = "1", features = ["derive"] }
serde_json = "1"
thiserror = "2"
tokio = { version = "1", features = ["rt-multi-thread", "macros", "io-std"] }
