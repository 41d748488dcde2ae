[package]
name = "rust_pkg_gen"
version = "1.0.0"
edition = "2021"
publish = false

[dependencies]
sha2 = "*"
hex = "*"
url = "*"
toml = "*"
serde = { version = "*", features = ["derive"] }
reqwest = { version = "*", default-features = false, features = ["blocking"] }
clap = { version = "*", features = ["derive"] }
dialoguer = "*"
env_logger = "*"
log = "*"
rand = "*"
filebuffer = "*"
