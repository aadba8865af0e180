[package]
name = "yaml_schema"
version = "0.1.0"
edition = "2021"
publish = false

[dependencies]
saphyr = "=0.0.3"
regex = "=1.13.1"
clap = { version = "=4.6.7", features = ["derive"] }
