[package]
name = "trackconv"
version = "0.1.0"
edition = "2021"
publish = false

[dependencies]
deunicode = "*"
anyhow = "*"
clap = { version = "*", features = ["derive"] }
csv = "*"
rayon = "*"
serde = { version = "*", features = ["derive"] }
