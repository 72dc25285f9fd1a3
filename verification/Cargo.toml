[package]
name = "hangar-core"
version = "0.1.0"
edition = "2021"
publish = false

[dependencies]
base64 = "0.22"
sha2 = "0.10"
url = "2"
uuid = { version = "1", features = ["v4"] }
rand = "0.8"
serde_json = "1"
serde = { version = "1", features = ["derive"] }
ureq = "2"
dirs = "5"
tiny_http = "0.12"
open = "5"
clap = { version = "4", features = ["derive"] }
crossterm = "0.28"
ratatui = "0.29"
libc = "0.2"
