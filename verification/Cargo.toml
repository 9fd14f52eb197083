[package]
name = "download_counter"
version = "0.1.0"
edition = "2021"
publish = false

[dependencies]
actix-web = "4"
redis = "*"
dotenv = "0.15"
