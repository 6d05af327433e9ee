[package]
name = "limux-host-linux"
version = "0.1.0"
edition = "2021"
publish = false

[dependencies]
uuid = { version = "1", features = ["v4"] }
gtk4 = "*"
libadwaita = "*"
vte4 = "*"
webkit6 = "*"
