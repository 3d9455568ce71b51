[package]
name = "augre"
version = "0.1.0"
edition = "2021"
publish = false

[dependencies]
anyhow = "*"
chatgpt_rs = "*"
clap = { version = "*", features = ["derive"] }
reqwest = { version = "*", default-features = false, features = ["json", "rustls-tls"] }
serde = { version = "*", features = ["derive"] }
termimad = "*"
tokio = { version = "*", features = ["full"] }
url = "*"
yansi = "*"
