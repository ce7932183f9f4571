[package]
name = "sigroute"
version = "0.1.0"
edition = "2021"
publish = false

[dependencies]
serde = { version = "1", features = ["derive"] }
serde_json = "1"
zbus = "5"
zvariant = "5"
rusqlite = "*"
chrono = "0.4"
async-channel = "2"
gtk4 = "0.9"
libadwaita = { version = "0.7", features = ["v1_5"] }
