[package]
name = "wallpaper_dl"
version = "0.1.0"
edition = "2021"
publish = false

[dependencies]
apputils = "*"
blake3 = "*"
mailparse = "*"
reqwest = { version = "*", features = ["blocking", "json"] }
scraper = "*"
serde = { version = "*", features = ["derive"] }
toml = "*"
url = "*"
