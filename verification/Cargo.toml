[package]
name = "emoji_search"
version = "0.1.0"
edition = "2021"
publish = false

[dependencies]
alphred = "*"
anyhow = "*"
rayon = "*"
reqwest = { version = "*", default-features = false, features = ["blocking"] }
select = "*"
