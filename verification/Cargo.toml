[package]
name = "tailray"
version = "0.1.0"
edition = "2021"
publish = false

[dependencies]
arboard = "*"
ctrlc = "*"
env_logger = "*"
ksni = { version = "*", features = ["blocking"] }
log = "*"
notify-rust = "*"
open = "*"
resvg = "*"
serde = { version = "*", features = ["derive"] }
serde_json = "*"
shlex = "*"
tempfile = "*"
which = "*"
whoami = "*"
