[package]
name = "proxmox_tui_installer"
version = "0.1.0"
edition = "2021"
publish = false

[dependencies]
regex = "*"
serde_json = "*"
cursive = "*"
