[package]
name = "cask"
version = "0.1.0"
edition = "2021"
publish = false

[dependencies]
semver = "=1.0.28"
git-url-parse = "=0.6.0"
sha2 = "=0.10.9"
libflate = "=2.3.2"
bzip2 = "=0.6.1"
tar = "=0.4.46"
zip = "=8.6.0"
url = "=2.5.8"
toml = "*"
serde = { version = "1", features = ["derive"] }
chrono = "0.4"
eyre = "*"
wait-timeout = "*"
reqwest = { version = "*", default-features = false, features = ["blocking"] }
