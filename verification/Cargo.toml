[package]
name = "keyboard_mouse"
version = "0.1.0"
edition = "2021"
publish = false

[dependencies]
anyhow = "1"
clap = { version = "4", features = ["derive"] }
ctrlc = "3"
env_logger = "0.10"
evdev = "0.12"
log = "0.4"
toml = "0.8"
uinput = { version = "0.1", default-features = false }
