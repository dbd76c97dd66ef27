[package]
name = "inbox_integrations"
version = "0.1.0"
edition = "2021"
publish = false

[dependencies]
chrono = { version = "0.4", default-features = false, features = ["std", "clock"] }
dioxus = { version = "0.5", default-features = false, features = ["macro", "html", "hooks", "signals"] }
dioxus-free-icons = { version = "0.8", features = ["bootstrap"] }
