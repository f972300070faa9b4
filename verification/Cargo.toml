[package]
name = "zxp"
version = "0.1.0"
edition = "2021"
publish = false

[dependencies]
serde_json = "1"
zip = { version = "2", default-features = false, features = ["deflate"] }
ureq = { version = "2", features = ["json"] }
temp-dir = "0.1"
clap = { version = "4", features = ["derive"] }
config = { version = "0.14", default-features = false, features = ["toml"] }
serde = "1"
serde_derive = "1"
simplelog = "0.12"
log = "0.4"
exitcode = "1"
