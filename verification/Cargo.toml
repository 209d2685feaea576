[package]
name = "bluezadvertising"
version = "0.1.0"
edition = "2021"
publish = false

[dependencies]
anyhow = "=1.0.104"
cadence = "=1.8.0"
zbus = "=4.4.0"
zvariant = "=4.2.0"
