[package]
name = "receipts"
version = "0.1.0"
edition = "2021"
publish = false

[dependencies]
iced = { version = "=0.13.1", default-features = false, features = ["tiny-skia", "tokio"] }
printpdf = { version = "=0.9.1", default-features = false }
anyhow = "=1.0.104"
log = "=0.4.35"
