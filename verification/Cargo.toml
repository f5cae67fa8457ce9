[package]
name = "file_opener"
version = "0.1.0"
edition = "2021"
publish = false

[dependencies]
anyhow = "1"
clap-verbosity-flag = "0.3"
colored = "2"
directories = "3"
env_logger = "0.7"
log = "0.4"
mime = "0.3"
mime_guess = "2"
open = "1"
regex = "1"
rofi = "*"
serde = { version = "1", features = ["derive"] }
structopt = "0.3"
subprocess = "0.2"
toml = "0.5"
toml_edit = "0.2"
tree_magic = "0.2"
