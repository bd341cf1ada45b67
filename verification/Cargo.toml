[package]
name = "tome"
version = "0.1.0"
edition = "2021"
publish = false

[dependencies]
uuid = { version = "1", features = ["v5"] }
syntect = { version = "5", default-features = false, features = ["default-fancy"] }
serde = { version = "1", features = ["derive"] }
serde_json = "1"
anyhow = "1"
anathema = "*"
arboard = { version = "3", default-features = false }
clap = { version = "4", features = ["derive"] }
directories = "*"
http = "1"
quit = "*"
ureq = "2"
