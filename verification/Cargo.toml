[package]
name = "gaem_launcher"
version = "0.1.0"
edition = "2021"
publish = false

[dependencies]
eframe = "0.18"
egui = "0.18"
whoami = "1"
winapi = { version = "0.3", features = ["winbase"] }
