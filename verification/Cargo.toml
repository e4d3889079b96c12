[package]
name = "colortty"
version = "0.1.0"
edition = "2021"
publish = false

[dependencies]
regex = "1"
RustyXML = "0.3"
json = "0.12"
anyhow = "1"
thiserror = "1"
getopts = "0.2"
dirs = "*"
futures = "0.3"
async-std = { version = "1", features = ["attributes"] }
surf = "2"
reqwest = { version = "*", default-features = false, features = ["blocking"] }
