[package]
name = "elm-torture"
version = "0.0.2"
edition = "2021"
publish = false

[dependencies]
bstr = "*"
clap = { version = "*", features = ["derive"] }
colored = "*"
env_logger = "*"
humantime = "*"
indented = "*"
log = "*"
rayon = "*"
replace_with = "*"
serde = { version = "*", features = ["derive"] }
serde_json = "*"
tempfile = "*"
wait-timeout = "*"
which = "*"
