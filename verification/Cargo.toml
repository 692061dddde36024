[package]
name = "thcon"
version = "0.14.0"
edition = "2021"
publish = false

[dependencies]
anyhow = "1"
async-std = "1"
clap = "2"
dbus = "0.9"
dirs = "3"
either = { version = "1", features = ["serde"] }
exitcode = "1"
gio = "0.9"
log = "0.4"
pretty_env_logger = "0.4"
rayon = "1"
regex = "1"
serde = { version = "1", features = ["derive"] }
serde_json = "1"
signal-hook = "0.3"
signal-hook-async-std = "0.2"
thiserror = "1"
toml = "0.5"
xdg = "2"
xml-rs = "0.8"
