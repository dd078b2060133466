[package]
name = "file_downloader"
version = "0.1.0"
edition = "2021"
publish = false

[dependencies]
serde_json = "*"
url = "*"
md5 = "*"
num_cpus = "*"
threadpool = "*"
indicatif = "*"
clap = "*"
reqwest = { version = "*", default-features = false, features = ["blocking", "json"] }
