[package]
name = "tsky"
version = "0.1.0"
edition = "2021"
publish = false

[dependencies]
psl = "*"
tree_magic_mini = "*"
imagesize = "*"
serde = { version = "*", features = ["derive"] }
serde_json = "*"
bsky-sdk = "*"
atrium-api = "*"
reqwest = { version = "*", default-features = false, features = ["rustls-tls"] }
tokio = { version = "*", features = ["full"] }
futures = "*"
dotenvy = "*"
wl-clipboard-rs = "*"
mktemp = "*"
