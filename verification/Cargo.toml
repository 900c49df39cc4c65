[package]
name = "termillion"
version = "0.1.0"
edition = "2021"
publish = false

[dependencies]
portable-pty = "*"
uuid = { version = "*", features = ["v4"] }
serde = { version = "*", features = ["derive"] }
serde_json = "*"
toml = "*"
toml_edit = "*"
documented = "*"
dirs = "*"
which = "*"
