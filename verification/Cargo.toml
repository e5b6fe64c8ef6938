[package]
name = "release_plz"
version = "0.1.0"
edition = "2021"
publish = false

[dependencies]
git-url-parse = "=0.4.6"
url = { version = "=2.5.8", features = ["serde"] }
duration-str = "=0.21.0"
serde = { version = "*", features = ["derive"] }
toml = "*"
