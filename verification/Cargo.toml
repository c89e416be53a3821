[package]
name = "include_url_macro"
version = "0.1.0"
edition = "2021"
publish = false

[dependencies]
brotli = "*"
proc-macro2 = "1"
quote = "1"
reqwest = { version = "0.12", default-features = false, features = ["blocking", "rustls-tls"] }
serde_json = "1"
sha2 = "0.10"
syn = "2"
url = "2"
