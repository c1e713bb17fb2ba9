[package]
name = "forward_as_attachment_mta"
version = "0.1.0"
edition = "2021"
publish = false

[dependencies]
hostname = "*"
lettre = "*"
libc = "*"
mailparse = "*"
regex = "*"
serde = { version = "*", features = ["derive"] }
toml = "*"
tracing = "*"
tracing-subscriber = "*"
users = "*"
uucore = { version = "*", features = ["fs"] }
whoami = "*"
