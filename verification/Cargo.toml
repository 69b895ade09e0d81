[package]
name = "layer_shell_io"
version = "0.1.0"
edition = "2021"
publish = false

[dependencies]
anyhow = "1"
chrono = "0.4"
dbus = "*"
jzon = "*"
libc = "0.2"
log = "0.4"
microjson = "*"
pipewire = "*"
rustix = { version = "*", features = ["net", "fs", "time", "event"] }
serde = { version = "1", features = ["derive"] }
serde_json = "1"
