[package]
name = "mailnotify"
version = "0.1.0"
edition = "2021"
publish = false

[dependencies]
idna = "*"
percent-encoding = "*"
chrono = "*"
chrono-tz = "*"
lettre = { version = "*", features = ["native-tls"] }
native-tls = "*"
serde_json = "*"
