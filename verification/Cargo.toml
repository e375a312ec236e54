[package]
name = "ass_cli"
version = "0.1.0"
edition = "2021"
publish = false

[dependencies]
ring = "=0.17.14"
serde_json = "=1.0.151"
url = "=2.5.8"
reqwest = { version = "=0.13.5", default-features = false, features = ["multipart"] }
tokio = { version = "=1.53.2", default-features = false, features = ["macros", "rt"] }
clap = "=4.6.7"
termcolor = "=1.4.1"
dirs = "=7.0.0"
