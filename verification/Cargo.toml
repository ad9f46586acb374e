[package]
name = "rust_script"
version = "0.1.0"
edition = "2021"
publish = false

[dependencies]
sha1 = "=0.10.7"
blake3 = "=1.8.7"
toml = "0.8"
pulldown-cmark = { version = "=0.9.6", default-features = false }
clap = { version = "=4.6.7", features = ["cargo"] }
tempfile = "=3.27.0"
dirs-next = "=2.0.0"
atty = "=0.2.14"
is-terminal = "=0.4.17"
home = "=0.5.12"
dunce = "=1.0.5"
