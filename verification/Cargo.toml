[package]
name = "xrpicker"
version = "0.1.0"
edition = "2021"
publish = false

[dependencies]
itertools = "=0.12.1"
object = "=0.32.2"
serde = { version = "=1.0.229", features = ["derive"] }
serde_json = "=1.0.154"
xdg = "=2.5.2"
dirs = "=5.0.1"
thiserror = "=1.0.69"
anyhow = "=1.0.104"
pico-args = "=0.5.0"
winreg = "0.52"
special-folder = "*"
iswow64 = "*"
