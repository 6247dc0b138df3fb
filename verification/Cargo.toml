[package]
name = "rss_epub"
version = "0.1.0"
edition = "2021"
publish = false

[dependencies]
epub-builder = "=0.8.3"
lettre = { version = "=0.11.23", default-features = false, features = ["builder", "smtp-transport", "pool", "hostname", "rustls", "aws-lc-rs", "webpki-roots"] }
reqwest = { version = "=0.13.5", features = ["blocking"] }
rss = "=2.1.2"
sanitize_html = "=0.10.0"
scraper = "=0.29.0"
serde = { version = "=1.0.229", features = ["derive"] }
serde_yaml = "=0.9.34"

[dev-dependencies]
zip = { version = "=6.0.0", default-features = false, features = ["deflate", "time"] }
