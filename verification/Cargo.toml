[package]
name = "cyu_login"
version = "0.1.0"
edition = "2021"
publish = false

[dependencies]
relm4 = { version = "0.9", features = ["libadwaita", "gnome_45"] }
