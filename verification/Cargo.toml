[package]
name = "terminal_emulator"
version = "0.1.0"
edition = "2021"
publish = false

[dependencies]
dirs = "*"
glib = "0.16"
gtk4 = "0.5"
serde = { version = "1", features = ["derive"] }
toml = "*"
vte4 = "0.5"
