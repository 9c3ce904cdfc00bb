[package]
name = "hors"
version = "0.1.0"
edition = "2021"
publish = false

[dependencies]
select = "*"
syntect = { version = "*", default-features = false, features = ["default-fancy"] }
url = "*"
reqwest = { version = "*", default-features = false, features = ["blocking", "cookies"] }
