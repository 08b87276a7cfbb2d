[package]
name = "plain_storage"
version = "0.1.0"
edition = "2021"
publish = false

[dependencies]
pgrx = { version = "=0.12.9", default-features = false, features = ["pg17"] }
