[package]
name = "grease"
version = "0.1.0"
edition = "2021"
publish = false

[dependencies]
chrono = "0.4"
regex = "1"
bcrypt = "*"
uuid = { version = "1", features = ["v4"] }
base64 = "0.13"
icalendar = "*"
url = "1.7"
time = { version = "0.3", features = ["formatting", "parsing"] }
serde = { version = "1", features = ["derive"] }
serde_json = "1"
anyhow = "1"
thiserror = "1"
