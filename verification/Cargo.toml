[package]
name = "eskom_notifier"
version = "0.1.0"
edition = "2021"
publish = false

[dependencies]
anyhow = "1"
chrono = "0.4"
chrono-humanize = "0.2"
cron = "*"
ctrlc = "3"
directories-next = "2"
eframe = { version = "0.23", default-features = false, features = ["default_fonts", "glow"] }
eyre = "0.6"
inquire = "*"
serde = { version = "1", features = ["derive"] }
serde_yaml = "0.9"
