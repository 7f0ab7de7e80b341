[package]
name = "tuckr_ui"
version = "0.1.0"
edition = "2021"
publish = false

[dependencies]
egui = { version = "0.29", default-features = false }
egui_extras = { version = "0.29", default-features = false }
rfd = { version = "0.15", default-features = false, features = ["xdg-portal", "tokio"] }
serde = { version = "=1.0.229", features = ["derive"] }
tuckr = "=0.13.1"
