[package]
name = "vxserver"
version = "0.1.0"
edition = "2021"
publish = false

[dependencies]
anyhow = "1"
chrono = "0.4"
once_cell = "1"
rand = "*"
rusqlite = "*"
rustyline = "*"
serde = { version = "1", features = ["derive"] }
serde_json = "1"
ureq = "3"
zip = "*"
