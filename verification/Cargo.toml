[package]
name = "chess_lobby"
version = "0.1.0"
edition = "2021"
publish = false

[dependencies]
uuid = { version = "=1.29.0", features = ["v4"] }
serde = { version = "=1.0.229", features = ["derive"] }
actix-web = { version = "=4.18.1", default-features = false, features = ["macros"] }
dioxus = { version = "=0.4.3", default-features = false, features = ["macro", "html", "hooks"] }
dioxus-router = { version = "=0.4.3" }
dioxus-web = { version = "=0.4.3", default-features = false, features = ["file_engine"] }
dioxus-logger = { version = "=0.4.1" }
log = { version = "=0.4.34" }
reqwest = { version = "=0.11.27", default-features = false, features = ["json"] }
