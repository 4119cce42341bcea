[package]
name = "punto"
version = "0.1.0"
edition = "2021"
publish = false

[dependencies]
subprocess = "0.2"
fs_extra = "1"
folder_compare = "*"
clap = "2"
yaml-rust = "0.4"
toml = "0.8"
serde = { version = "1", features = ["derive"] }
