[package]
name = "cmd_repeater"
version = "0.1.0"
edition = "2021"
publish = false

[dependencies]
regex = "*"
reqwest = { version = "*", default-features = false, features = ["blocking"] }
structopt = "*"
url = "*"

[dev-dependencies]
serde_json = "*"
